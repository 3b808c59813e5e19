//! Reading and filtering `#[wasm_bindgen(...)]` attributes.
use vstd::prelude::*;
use crate::model::{AttrModel, ExprModel, MetaKind, MetaModel};
use crate::strings::str_eq;

verus! {

/// Whether an optional identifier is present and equal to `name`.
pub open spec fn ident_is(id: Option<String>, name: Seq<char>) -> bool {
    id matches Some(s) && s@ == name
}

/// Whether an attribute is `#[wasm_bindgen...]`.
pub open spec fn is_wb(a: AttrModel) -> bool {
    ident_is(a.name, "wasm_bindgen"@)
}

pub(crate) fn opt_ident_is(id: &Option<String>, name: &str) -> (r: bool)
    ensures
        r == ident_is(*id, name@),
{
    match id {
        Some(s) => str_eq(s.as_str(), name),
        None => false,
    }
}

/// Checks whether an attribute is `#[wasm_bindgen(...)]`.
pub fn is_wasm_bindgen(attr: &AttrModel) -> (r: bool)
    ensures
        r == is_wb(*attr),
{
    opt_ident_is(&attr.name, "wasm_bindgen")
}

/// The attributes that are not `#[wasm_bindgen...]`, in their order.
pub open spec fn without_wb(attrs: Seq<AttrModel>) -> Seq<AttrModel> {
    attrs.filter(|a: AttrModel| !is_wb(a))
}

/// Returns the attributes of a list that are not `#[wasm_bindgen(...)]`,
/// keeping their order.
pub fn strip_wasm_bindgen(attrs: &Vec<AttrModel>) -> (r: Vec<&AttrModel>)
    ensures
        r@.map_values(|a: &AttrModel| *a) == without_wb(attrs@),
{
    let mut r: Vec<&AttrModel> = Vec::new();
    let mut i: usize = 0;
    while i < attrs.len()
        invariant
            i <= attrs.len(),
            r@.map_values(|a: &AttrModel| *a) == without_wb(attrs@.take(i as int)),
        decreases attrs.len() - i,
    {
        let ghost before = r@;
        proof {
            reveal_with_fuel(Seq::filter, 1);
        }
        assert(attrs@.take(i + 1).drop_last() =~= attrs@.take(i as int));
        assert(attrs@.take(i + 1).last() == attrs@[i as int]);
        if !is_wasm_bindgen(&attrs[i]) {
            r.push(&attrs[i]);
            assert(r@.map_values(|a: &AttrModel| *a) =~= before.map_values(|a: &AttrModel| *a).push(attrs@[i as int]));
            assert(without_wb(attrs@.take(i + 1)) == without_wb(attrs@.take(i as int)).push(attrs@[i as int]));
        } else {
            assert(r@ == before);
            assert(without_wb(attrs@.take(i + 1)) == without_wb(attrs@.take(i as int)));
        }
        i = i + 1;
    }
    assert(attrs@.take(attrs.len() as int) =~= attrs@);
    r
}

/// Filtering twice is filtering once, and nothing `#[wasm_bindgen]` is left.
pub proof fn lemma_strip_is_idempotent(attrs: Seq<AttrModel>)
    ensures
        without_wb(without_wb(attrs)) == without_wb(attrs),
        forall|i: int| 0 <= i < without_wb(attrs).len() ==> !is_wb(#[trigger] without_wb(attrs)[i]),
    decreases attrs.len(),
{
    reveal_with_fuel(Seq::filter, 1);
    if attrs.len() > 0 {
        lemma_strip_is_idempotent(attrs.drop_last());
        let rest = without_wb(attrs.drop_last());
        if !is_wb(attrs.last()) {
            assert(without_wb(attrs) == rest.push(attrs.last()));
            assert(rest.push(attrs.last()).drop_last() =~= rest);
        }
    }
}

/// The string value of a `js_name = "..."` item, if the item has that form.
pub open spec fn js_name_str(m: MetaModel) -> Option<String> {
    if ident_is(m.key, "js_name"@) {
        match m.kind {
            MetaKind::NameValue(ExprModel::StrLit(s)) => Some(s),
            _ => None,
        }
    } else {
        None
    }
}

/// The first `js_name = "..."` value among attribute items.
pub open spec fn js_name_in_metas(ms: Seq<MetaModel>) -> Option<String>
    decreases ms.len(),
{
    if ms.len() == 0 {
        None
    } else if js_name_str(ms[0]) is Some {
        js_name_str(ms[0])
    } else {
        js_name_in_metas(ms.drop_first())
    }
}

/// The first `js_name = "..."` value found in `#[wasm_bindgen(...)]`
/// attributes whose arguments parse, attribute by attribute.
pub open spec fn js_name_in_attrs(attrs: Seq<AttrModel>) -> Option<String>
    decreases attrs.len(),
{
    if attrs.len() == 0 {
        None
    } else {
        let a = attrs[0];
        let found = if is_wb(a) {
            match a.args {
                Some(ms) => js_name_in_metas(ms@),
                None => None,
            }
        } else {
            None
        };
        if found is Some {
            found
        } else {
            js_name_in_attrs(attrs.drop_first())
        }
    }
}

fn js_name_in_metas_exec(ms: &Vec<MetaModel>) -> (r: Option<String>)
    ensures
        r == js_name_in_metas(ms@),
{
    let mut i: usize = 0;
    assert(ms@.skip(0) =~= ms@);
    while i < ms.len()
        invariant
            i <= ms.len(),
            js_name_in_metas(ms@) == js_name_in_metas(ms@.skip(i as int)),
        decreases ms.len() - i,
    {
        assert(ms@.skip(i as int).drop_first() =~= ms@.skip(i + 1));
        assert(ms@.skip(i as int)[0] == ms@[i as int]);
        let m = &ms[i];
        if opt_ident_is(&m.key, "js_name") {
            if let MetaKind::NameValue(ExprModel::StrLit(s)) = &m.kind {
                return Some(s.clone());
            }
        }
        i = i + 1;
    }
    None
}

/// Extracts the `js_name` value from `#[wasm_bindgen(js_name = "...")]`
/// attributes; `None` when there is none.
pub fn extract_js_name_from_attrs(attrs: &Vec<AttrModel>) -> (r: Option<String>)
    ensures
        r == js_name_in_attrs(attrs@),
{
    let mut i: usize = 0;
    assert(attrs@.skip(0) =~= attrs@);
    while i < attrs.len()
        invariant
            i <= attrs.len(),
            js_name_in_attrs(attrs@) == js_name_in_attrs(attrs@.skip(i as int)),
        decreases attrs.len() - i,
    {
        assert(attrs@.skip(i as int).drop_first() =~= attrs@.skip(i + 1));
        assert(attrs@.skip(i as int)[0] == attrs@[i as int]);
        let a = &attrs[i];
        if is_wasm_bindgen(a) {
            if let Some(ms) = &a.args {
                let found = js_name_in_metas_exec(ms);
                if found.is_some() {
                    return found;
                }
            }
        }
        i = i + 1;
    }
    None
}

/// The texts of all argument items of `#[wasm_bindgen(...)]` attributes
/// whose arguments parse, in order.
pub open spec fn wb_meta_texts(attrs: Seq<AttrModel>) -> Seq<Seq<char>>
    decreases attrs.len(),
{
    if attrs.len() == 0 {
        Seq::<Seq<char>>::empty()
    } else {
        let a = attrs.last();
        let mine = if is_wb(a) {
            match a.args {
                Some(ms) => ms@.map_values(|m: MetaModel| m.text@),
                None => Seq::<Seq<char>>::empty(),
            }
        } else {
            Seq::<Seq<char>>::empty()
        };
        wb_meta_texts(attrs.drop_last()) + mine
    }
}

/// Collects the texts of the argument items of a method's
/// `#[wasm_bindgen(...)]` attributes, to forward them.
pub fn collect_wb_meta(attrs: &Vec<AttrModel>) -> (r: Vec<String>)
    ensures
        r@.map_values(|s: String| s@) == wb_meta_texts(attrs@),
{
    let mut r: Vec<String> = Vec::new();
    let mut i: usize = 0;
    while i < attrs.len()
        invariant
            i <= attrs.len(),
            r@.map_values(|s: String| s@) == wb_meta_texts(attrs@.take(i as int)),
        decreases attrs.len() - i,
    {
        assert(attrs@.take(i + 1).drop_last() =~= attrs@.take(i as int));
        assert(attrs@.take(i + 1).last() == attrs@[i as int]);
        let a = &attrs[i];
        let ghost start = r@.map_values(|s: String| s@);
        if is_wasm_bindgen(a) {
            if let Some(ms) = &a.args {
                let mut j: usize = 0;
                while j < ms.len()
                    invariant
                        j <= ms.len(),
                        r@.map_values(|s: String| s@) == start + ms@.take(j as int).map_values(|m: MetaModel| m.text@),
                    decreases ms.len() - j,
                {
                    let ghost before = r@;
                    r.push(ms[j].text.clone());
                    assert(r@.map_values(|s: String| s@) =~= before.map_values(|s: String| s@).push(ms@[j as int].text@));
                    assert(ms@.take(j + 1).map_values(|m: MetaModel| m.text@) =~= ms@.take(j as int).map_values(|m: MetaModel| m.text@).push(ms@[j as int].text@));
                    j = j + 1;
                }
                assert(ms@.take(ms.len() as int) =~= ms@);
            }
        }
        assert(r@.map_values(|s: String| s@) =~= wb_meta_texts(attrs@.take(i + 1)));
        i = i + 1;
    }
    assert(attrs@.take(attrs.len() as int) =~= attrs@);
    r
}

/// The string a `key = value` item gives for its value: a string literal's
/// value, or a path's last identifier.
pub open spec fn meta_string(m: MetaModel) -> Option<String> {
    match m.kind {
        MetaKind::NameValue(ExprModel::StrLit(s)) => Some(s),
        MetaKind::NameValue(ExprModel::Path { last, .. }) => last,
        _ => None,
    }
}

/// Reads the value of `key = "Foo"` or `key = Foo` as a string.
pub fn meta_value_as_string(meta: &MetaModel) -> (r: Option<String>)
    ensures
        r == meta_string(*meta),
{
    match &meta.kind {
        MetaKind::NameValue(ExprModel::StrLit(s)) => Some(s.clone()),
        MetaKind::NameValue(ExprModel::Path { last, .. }) => match last {
            Some(l) => Some(l.clone()),
            None => None,
        },
        _ => None,
    }
}

/// The first usable `js_class = ...` value among attribute items.
pub open spec fn js_class_in_metas(ms: Seq<MetaModel>) -> Option<String>
    decreases ms.len(),
{
    if ms.len() == 0 {
        None
    } else if ms[0].kind is NameValue && ident_is(ms[0].key, "js_class"@) && meta_string(ms[0]) is Some {
        meta_string(ms[0])
    } else {
        js_class_in_metas(ms.drop_first())
    }
}

/// The first usable `js_class = ...` value in `#[wasm_bindgen(...)]`
/// attributes, attribute by attribute.
pub open spec fn js_class_in_attrs(attrs: Seq<AttrModel>) -> Option<String>
    decreases attrs.len(),
{
    if attrs.len() == 0 {
        None
    } else {
        let a = attrs[0];
        let found = if is_wb(a) {
            match a.args {
                Some(ms) => js_class_in_metas(ms@),
                None => None,
            }
        } else {
            None
        };
        if found is Some {
            found
        } else {
            js_class_in_attrs(attrs.drop_first())
        }
    }
}

/// The argument items of an attribute, when it is `#[wasm_bindgen(...)]`
/// and they parse.
pub fn wasm_bindgen_args(attr: &AttrModel) -> (r: Option<&Vec<MetaModel>>)
    ensures
        r == (if is_wb(*attr) { match attr.args { Some(ms) => Some(&ms), None => None } } else { None }),
{
    if !is_wasm_bindgen(attr) {
        return None;
    }
    match &attr.args {
        Some(ms) => Some(ms),
        None => None,
    }
}

fn js_class_in_metas_exec(ms: &Vec<MetaModel>) -> (r: Option<String>)
    ensures
        r == js_class_in_metas(ms@),
{
    let mut j: usize = 0;
    assert(ms@.skip(0) =~= ms@);
    while j < ms.len()
        invariant
            j <= ms.len(),
            js_class_in_metas(ms@) == js_class_in_metas(ms@.skip(j as int)),
        decreases ms.len() - j,
    {
        assert(ms@.skip(j as int).drop_first() =~= ms@.skip(j + 1));
        assert(ms@.skip(j as int)[0] == ms@[j as int]);
        let m = &ms[j];
        if let MetaKind::NameValue(_) = &m.kind {
            if opt_ident_is(&m.key, "js_class") {
                let v = meta_value_as_string(m);
                if v.is_some() {
                    return v;
                }
            }
        }
        j = j + 1;
    }
    None
}

/// Finds the `js_class` named on `#[wasm_bindgen(js_class = ...)]`.
pub fn find_js_class(attrs: &Vec<AttrModel>) -> (r: Option<String>)
    ensures
        r == js_class_in_attrs(attrs@),
{
    let mut i: usize = 0;
    assert(attrs@.skip(0) =~= attrs@);
    while i < attrs.len()
        invariant
            i <= attrs.len(),
            js_class_in_attrs(attrs@) == js_class_in_attrs(attrs@.skip(i as int)),
        decreases attrs.len() - i,
    {
        assert(attrs@.skip(i as int).drop_first() =~= attrs@.skip(i + 1));
        assert(attrs@.skip(i as int)[0] == attrs@[i as int]);
        if let Some(ms) = wasm_bindgen_args(&attrs[i]) {
            let v = js_class_in_metas_exec(ms);
            if v.is_some() {
                return v;
            }
        }
        i = i + 1;
    }
    None
}


/// The item texts an attribute contributes to the forwarded list: all its
/// items when it is `#[wasm_bindgen(...)]` with a list that parses, none
/// otherwise.
pub open spec fn own_meta_texts(a: AttrModel) -> Seq<Seq<char>> {
    if is_wb(a) {
        match a.args {
            Some(ms) => ms@.map_values(|m: MetaModel| m.text@),
            None => Seq::<Seq<char>>::empty(),
        }
    } else {
        Seq::<Seq<char>>::empty()
    }
}

proof fn lemma_wb_meta_texts_alt(attrs: Seq<AttrModel>)
    ensures
        wb_meta_texts(attrs) == attrs.map_values(|a: AttrModel| own_meta_texts(a)).flatten_alt(),
    decreases attrs.len(),
{
    let own = attrs.map_values(|a: AttrModel| own_meta_texts(a));
    if attrs.len() > 0 {
        lemma_wb_meta_texts_alt(attrs.drop_last());
        assert(own.drop_last() =~= attrs.drop_last().map_values(|a: AttrModel| own_meta_texts(a)));
        assert(own.last() == own_meta_texts(attrs.last()));
    } else {
        assert(own =~= Seq::<Seq<Seq<char>>>::empty());
    }
}

/// The forwarded `#[wasm_bindgen]` items are the concatenation, in
/// attribute order, of the items of each `#[wasm_bindgen(...)]` attribute
/// whose list parses; other attributes, and a bare or unparsable
/// `#[wasm_bindgen]`, add nothing.
pub proof fn lemma_collected_metas_concatenate(attrs: Seq<AttrModel>)
    ensures
        wb_meta_texts(attrs) == attrs.map_values(|a: AttrModel| own_meta_texts(a)).flatten(),
{
    lemma_wb_meta_texts_alt(attrs);
    attrs.map_values(|a: AttrModel| own_meta_texts(a)).lemma_flatten_and_flatten_alt_are_equivalent();
}

/// Whether an attribute item is a usable `js_class = ...`: a name-value
/// item with that key whose value reads as a string.
pub open spec fn usable_js_class(m: MetaModel) -> bool {
    m.kind is NameValue && ident_is(m.key, "js_class"@) && meta_string(m) is Some
}

/// Whether an attribute is `#[wasm_bindgen(...)]` with a list that parses
/// and holds a usable `js_class`.
pub open spec fn attr_has_js_class(a: AttrModel) -> bool {
    is_wb(a) && (a.args matches Some(ms) && exists|k: int| 0 <= k < ms@.len() && usable_js_class(#[trigger] ms@[k]))
}

/// Within one attribute's items, the `js_class` found is the first usable
/// one, and there is none exactly when no item is usable.
pub proof fn lemma_js_class_is_first_usable_item(ms: Seq<MetaModel>)
    ensures
        js_class_in_metas(ms) is None <==> forall|k: int| 0 <= k < ms.len() ==> !usable_js_class(#[trigger] ms[k]),
        js_class_in_metas(ms) matches Some(v) ==> exists|k: int| 0 <= k < ms.len() && usable_js_class(#[trigger] ms[k])
            && meta_string(ms[k]) == Some(v) && forall|j: int| 0 <= j < k ==> !usable_js_class(#[trigger] ms[j]),
    decreases ms.len(),
{
    if ms.len() > 0 {
        let rest = ms.drop_first();
        lemma_js_class_is_first_usable_item(rest);
        assert forall|k: int| 0 <= k < rest.len() implies #[trigger] rest[k] == ms[k + 1] by {}
        if usable_js_class(ms[0]) {
            assert(js_class_in_metas(ms) == meta_string(ms[0]));
        } else {
            assert(js_class_in_metas(ms) == js_class_in_metas(rest));
            assert((forall|k: int| 0 <= k < ms.len() ==> !usable_js_class(#[trigger] ms[k]))
                <==> (forall|k: int| 0 <= k < rest.len() ==> !usable_js_class(#[trigger] rest[k]))) by {
                if forall|k: int| 0 <= k < rest.len() ==> !usable_js_class(#[trigger] rest[k]) {
                    assert forall|k: int| 0 <= k < ms.len() implies !usable_js_class(#[trigger] ms[k]) by {
                        if k > 0 {
                            assert(ms[k] == rest[k - 1]);
                        }
                    }
                }
            }
            if let Some(v) = js_class_in_metas(ms) {
                let k = choose|k: int| 0 <= k < rest.len() && usable_js_class(#[trigger] rest[k])
                    && meta_string(rest[k]) == Some(v) && forall|j: int| 0 <= j < k ==> !usable_js_class(#[trigger] rest[j]);
                assert(ms[k + 1] == rest[k]);
                assert forall|j: int| 0 <= j < k + 1 implies !usable_js_class(#[trigger] ms[j]) by {
                    if j > 0 {
                        assert(ms[j] == rest[j - 1]);
                    }
                }
            }
        }
    }
}

/// Across attributes, the `js_class` found is that of the first
/// `#[wasm_bindgen(...)]` attribute holding a usable one, and there is none
/// exactly when no attribute holds one; other attributes are ignored.
pub proof fn lemma_js_class_is_from_first_attribute(attrs: Seq<AttrModel>)
    ensures
        js_class_in_attrs(attrs) is None <==> forall|i: int| 0 <= i < attrs.len() ==> !attr_has_js_class(#[trigger] attrs[i]),
        js_class_in_attrs(attrs) matches Some(v) ==> exists|i: int| 0 <= i < attrs.len() && attr_has_js_class(#[trigger] attrs[i])
            && js_class_in_metas(attrs[i].args->0@) == Some(v)
            && forall|j: int| 0 <= j < i ==> !attr_has_js_class(#[trigger] attrs[j]),
    decreases attrs.len(),
{
    if attrs.len() > 0 {
        let rest = attrs.drop_first();
        lemma_js_class_is_from_first_attribute(rest);
        let a = attrs[0];
        if let Some(ms) = a.args {
            lemma_js_class_is_first_usable_item(ms@);
        }
        let here = attr_has_js_class(a);
        assert(here <==> (is_wb(a) && (a.args matches Some(ms) && js_class_in_metas(ms@) is Some)));
        if here {
            assert(js_class_in_attrs(attrs) == js_class_in_metas(a.args->0@));
        } else {
            assert(js_class_in_attrs(attrs) == js_class_in_attrs(rest));
            if forall|k: int| 0 <= k < rest.len() ==> !attr_has_js_class(#[trigger] rest[k]) {
                assert forall|k: int| 0 <= k < attrs.len() implies !attr_has_js_class(#[trigger] attrs[k]) by {
                    if k > 0 {
                        assert(attrs[k] == rest[k - 1]);
                    }
                }
            } else {
                let k = choose|k: int| 0 <= k < rest.len() && attr_has_js_class(#[trigger] rest[k]);
                assert(attrs[k + 1] == rest[k]);
            }
            if let Some(v) = js_class_in_attrs(attrs) {
                let i = choose|i: int| 0 <= i < rest.len() && attr_has_js_class(#[trigger] rest[i])
                    && js_class_in_metas(rest[i].args->0@) == Some(v) && forall|j: int| 0 <= j < i ==> !attr_has_js_class(#[trigger] rest[j]);
                assert(attrs[i + 1] == rest[i]);
                assert forall|j: int| 0 <= j < i + 1 implies !attr_has_js_class(#[trigger] attrs[j]) by {
                    if j > 0 {
                        assert(attrs[j] == rest[j - 1]);
                    }
                }
            }
        }
    }
}

} // verus!

verus! {

/// The source text of the attributes that are not `#[wasm_bindgen...]`.
pub open spec fn clean_attrs_text(attrs: Seq<AttrModel>) -> Seq<char> {
    crate::strings::join(without_wb(attrs).map_values(|a: AttrModel| a.text@), " "@)
}

/// Renders the attributes of a list that are not `#[wasm_bindgen(...)]`.
pub fn render_clean_attrs(attrs: &Vec<AttrModel>) -> (r: String)
    ensures
        r@ == clean_attrs_text(attrs@),
{
    let kept = strip_wasm_bindgen(attrs);
    let mut texts: Vec<String> = Vec::new();
    let mut i: usize = 0;
    while i < kept.len()
        invariant
            i <= kept.len(),
            texts@.len() == i,
            forall|j: int| 0 <= j < i ==> #[trigger] texts@[j]@ == kept@[j].text@,
        decreases kept.len() - i,
    {
        texts.push(kept[i].text.clone());
        i = i + 1;
    }
    assert(crate::strings::views(texts@) =~= kept@.map_values(|a: &AttrModel| *a).map_values(|a: AttrModel| a.text@));
    crate::strings::join_strings(&texts, " ")
}

} // verus!
