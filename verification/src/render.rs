//! Source text of an `impl` block with an item appended.
use vstd::prelude::*;
use crate::model::{ImplItemModel, ImplModel};
use crate::strings::{join, join_strings, views};

verus! {

/// The texts of an `impl` block's items.
pub open spec fn item_texts(items: Seq<ImplItemModel>) -> Seq<Seq<char>> {
    items.map_values(|it: ImplItemModel| it.text@)
}

/// The source text of `imp` with `extra` placed after its items.
pub open spec fn impl_block_text(imp: ImplModel, extra: Seq<char>) -> Seq<char> {
    imp.head@ + " { "@ + imp.inner_attrs@ + " "@ + join(item_texts(imp.items@), " "@) + " "@ + extra + " }"@
}

/// Renders `imp` with `extra` placed after its items.
pub fn render_impl_block(imp: &ImplModel, extra: &str) -> (r: String)
    ensures
        r@ == impl_block_text(*imp, extra@),
{
    let mut texts: Vec<String> = Vec::new();
    let mut i: usize = 0;
    while i < imp.items.len()
        invariant
            i <= imp.items.len(),
            texts@.len() == i,
            forall|j: int| 0 <= j < i ==> #[trigger] texts@[j]@ == imp.items@[j].text@,
        decreases imp.items.len() - i,
    {
        texts.push(imp.items[i].text.clone());
        i = i + 1;
    }
    assert(views(texts@) =~= item_texts(imp.items@));
    let body = join_strings(&texts, " ");
    let mut r = imp.head.clone();
    r.append(" { ");
    r.append(imp.inner_attrs.as_str());
    r.append(" ");
    r.append(body.as_str());
    r.append(" ");
    r.append(extra);
    r.append(" }");
    r
}

} // verus!
