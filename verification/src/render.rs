//! Template rendering through a logic-less templating engine.
//!
//! The engine is trusted for one thing only: its output is a function of the
//! template text and of the context mapping, named here by [`rendered`].

use vstd::prelude::*;

verus! {

/// The views of a context mapping's key/value pairs.
pub open spec fn kv_view(ctx: Seq<(String, String)>) -> Seq<(Seq<char>, Seq<char>)> {
    ctx.map_values(|p: (String, String)| (p.0@, p.1@))
}

/// What the templating engine produces for a template and a context mapping:
/// `Some` rendered text, or `None` where the template cannot be rendered.
pub uninterp spec fn rendered(tpl: Seq<char>, ctx: Seq<(Seq<char>, Seq<char>)>) -> Option<
    Seq<char>,
>;

/// Relies on handlebars' `Handlebars::render_template`: a fresh default
/// registry renders a template string against the given data, so success and
/// output text are a function of the template text and the context mapping
/// alone.
#[verifier::external_body]
pub(crate) fn hb_render(tpl: &str, ctx: &Vec<(String, String)>) -> (r: Option<String>)
    ensures
        (r is Some) == (rendered(tpl@, kv_view(ctx@)) is Some),
        r matches Some(s) ==> Some(s@) == rendered(tpl@, kv_view(ctx@)),
{
    let mut data = std::collections::BTreeMap::new();
    for (k, v) in ctx.iter() {
        data.insert(k.clone(), v.clone());
    }
    let registry = handlebars::Handlebars::new();
    match registry.render_template(tpl, &data) {
        Ok(out) => Some(out),
        Err(_) => None,
    }
}

/// Law: rendering is deterministic in its inputs. Two renders of the same
/// template text with the same context agree, in success and in content.
pub proof fn lemma_render_deterministic(
    tpl: Seq<char>,
    ctx: Seq<(Seq<char>, Seq<char>)>,
    r1: Option<Seq<char>>,
    r2: Option<Seq<char>>,
)
    requires
        r1 == rendered(tpl, ctx),
        r2 == rendered(tpl, ctx),
    ensures
        r1 == r2,
{
}

} // verus!
