use vstd::prelude::*;
use crate::model::{Attr, AttrLit, AttrMeta, AttrNested};
use crate::text::str_eq_word;

verus! {

/// An attribute belongs to the recognized namespace when its path is the
/// single segment `rtti`.
pub open spec fn is_rtti_attr(a: Attr) -> bool {
    a.path@.len() == 1 && a.path@[0]@ == "rtti"@
}

/// The items of an attribute's parenthesized meta-list, where the attribute
/// is in the recognized namespace and its argument form is such a list;
/// `None` for every other attribute.
pub open spec fn rtti_list_items(a: Attr) -> Option<Seq<AttrNested>> {
    if is_rtti_attr(a) {
        match a.meta {
            Option::Some(AttrMeta::List(_, items)) => Option::Some(items@),
            _ => Option::None,
        }
    } else {
        Option::None
    }
}

/// The hint text carried by one list item: the value of a `hint = "..."`
/// name-value pair whose value is a string literal. Every other item shape
/// carries no hint.
pub open spec fn item_hint(it: AttrNested) -> Option<Seq<char>> {
    match it {
        AttrNested::Meta(m) => match m {
            AttrMeta::NameValue(k, l) => if k@ == "hint"@ {
                match l {
                    AttrLit::Str(s) => Option::Some(s@),
                    AttrLit::Other => Option::None,
                }
            } else {
                Option::None
            },
            _ => Option::None,
        },
        AttrNested::Lit(_) => Option::None,
    }
}

/// The hint contribution of one list item as a sequence: one element where
/// the item is a recognized hint, empty otherwise.
pub open spec fn item_hint_seq(it: AttrNested) -> Seq<Seq<char>> {
    match item_hint(it) {
        Option::Some(h) => seq![h],
        Option::None => Seq::empty(),
    }
}

/// All hints of a meta-list, in encounter order, duplicates preserved.
pub open spec fn items_hints(items: Seq<AttrNested>) -> Seq<Seq<char>>
    decreases items.len(),
{
    if items.len() == 0 {
        Seq::empty()
    } else {
        items_hints(items.drop_last()) + item_hint_seq(items.last())
    }
}

/// The hints of one attribute: those of its meta-list where it is a
/// recognized list attribute, none otherwise.
pub open spec fn attr_hints(a: Attr) -> Seq<Seq<char>> {
    match rtti_list_items(a) {
        Option::Some(items) => items_hints(items),
        Option::None => Seq::empty(),
    }
}

/// All hints of an attribute list, attribute by attribute, in encounter
/// order.
pub open spec fn hints_spec(attrs: Seq<Attr>) -> Seq<Seq<char>>
    decreases attrs.len(),
{
    if attrs.len() == 0 {
        Seq::empty()
    } else {
        hints_spec(attrs.drop_last()) + attr_hints(attrs.last())
    }
}

/// True when one list item is the bare word `ignore`.
pub open spec fn item_ignore(it: AttrNested) -> bool {
    match it {
        AttrNested::Meta(m) => match m {
            AttrMeta::Word(w) => w@ == "ignore"@,
            _ => false,
        },
        AttrNested::Lit(_) => false,
    }
}

/// True when an attribute's recognized meta-list contains the bare word
/// `ignore` anywhere.
pub open spec fn attr_ignore(a: Attr) -> bool {
    match rtti_list_items(a) {
        Option::Some(items) => exists|k: int|
            0 <= k < items.len() && #[trigger] item_ignore(items[k]),
        Option::None => false,
    }
}

/// True when any attribute of the list sets the ignore flag; repeated
/// occurrences are idempotent.
pub open spec fn ignore_spec(attrs: Seq<Attr>) -> bool {
    exists|k: int| 0 <= k < attrs.len() && #[trigger] attr_ignore(attrs[k])
}

/// Law: a field whose one recognized attribute carries a `hint = ...` pair
/// with text `ha` and then one with text `hb` yields exactly the hints
/// [`ha`, `hb`], in that order — never reordered, and never deduplicated,
/// also where the two texts are equal.
pub proof fn lemma_hint_order(attrs: Seq<Attr>, ha: Seq<char>, hb: Seq<char>)
    requires
        attrs.len() == 1,
        rtti_list_items(attrs[0]) is Some,
        rtti_list_items(attrs[0])->0.len() == 2,
        item_hint(rtti_list_items(attrs[0])->0[0]) == Option::Some(ha),
        item_hint(rtti_list_items(attrs[0])->0[1]) == Option::Some(hb),
    ensures
        hints_spec(attrs) == seq![ha, hb],
{
    let items = rtti_list_items(attrs[0])->0;
    assert(attrs.drop_last() =~= Seq::<Attr>::empty());
    assert(attrs.last() == attrs[0]);
    assert(items.drop_last() =~= seq![items[0]]);
    assert(items.last() == items[1]);
    assert(seq![items[0]].drop_last() =~= Seq::<AttrNested>::empty());
    assert(seq![items[0]].last() == items[0]);
    assert(items_hints(Seq::<AttrNested>::empty()) =~= Seq::<Seq<char>>::empty());
    assert(item_hint_seq(items[0]) =~= seq![ha]);
    assert(item_hint_seq(items[1]) =~= seq![hb]);
    assert(items_hints(seq![items[0]]) =~= seq![ha]);
    assert(items_hints(items) == items_hints(items.drop_last()) + item_hint_seq(items.last()));
    assert(items_hints(items) =~= seq![ha, hb]);
    assert(attr_hints(attrs[0]) == items_hints(items));
    assert(hints_spec(Seq::<Attr>::empty()) =~= Seq::<Seq<char>>::empty());
    assert(hints_spec(attrs) == hints_spec(attrs.drop_last()) + attr_hints(attrs.last()));
    assert(hints_spec(attrs) =~= seq![ha, hb]);
}

/// Filters one attribute to the recognized namespace: hands back the items of
/// its parenthesized meta-list exactly where the attribute's path is the one
/// segment `rtti` and its argument form is such a list. Attributes outside
/// the namespace, and namespace attributes of any other argument form, are
/// not inspected further.
pub fn filter_attr_rtti<'a>(attr: &'a Attr) -> (r: Option<&'a Vec<AttrNested>>)
    ensures
        r is Some <==> rtti_list_items(*attr) is Some,
        r is Some ==> rtti_list_items(*attr) == Option::Some(r->0@),
{
    if attr.path.len() == 1 && str_eq_word(&attr.path[0], "rtti") {
        match &attr.meta {
            Option::Some(AttrMeta::List(_, items)) => Option::Some(items),
            _ => Option::None,
        }
    } else {
        Option::None
    }
}

/// Recognizes a string literal; any other literal form carries no hint text.
pub fn parse_lit<'a>(lit: &'a AttrLit) -> (r: Option<&'a String>)
    ensures
        match *lit {
            AttrLit::Str(s) => r is Some && r->0@ == s@,
            AttrLit::Other => r is None,
        },
{
    match lit {
        AttrLit::Str(s) => Option::Some(s),
        AttrLit::Other => Option::None,
    }
}

/// Collects the hint strings of every `hint = "..."` pair inside the
/// recognized attribute namespace, preserving encounter order and
/// duplicates.
pub fn parse_attr_hint(attrs: &Vec<Attr>) -> (r: Vec<String>)
    ensures
        r.deep_view() == hints_spec(attrs@),
{
    let mut r: Vec<String> = Vec::new();
    assert(r.deep_view() =~= hints_spec(attrs@.take(0)));
    let mut i: usize = 0;
    while i < attrs.len()
        invariant
            0 <= i <= attrs@.len(),
            r.deep_view() == hints_spec(attrs@.take(i as int)),
        decreases attrs@.len() - i,
    {
        if let Option::Some(items) = filter_attr_rtti(&attrs[i]) {
            let ghost items_v = items@;
            let mut j: usize = 0;
            assert(r.deep_view() + items_hints(items_v.take(0)) =~= r.deep_view());
            while j < items.len()
                invariant
                    0 <= j <= items_v.len(),
                    items_v == items@,
                    rtti_list_items(attrs@[i as int]) == Option::Some(items_v),
                    i < attrs@.len(),
                    r.deep_view() == hints_spec(attrs@.take(i as int)) + items_hints(
                        items_v.take(j as int),
                    ),
                decreases items_v.len() - j,
            {
                let ghost old_dv = r.deep_view();
                match &items[j] {
                    AttrNested::Meta(m) => {
                        match m {
                            AttrMeta::NameValue(k, l) => {
                                if str_eq_word(k, "hint") {
                                    if let Option::Some(s) = parse_lit(l) {
                                        r.push(s.clone());
                                        assert(r.deep_view() =~= old_dv + item_hint_seq(
                                            items_v[j as int],
                                        ));
                                    } else {
                                        assert(item_hint_seq(items_v[j as int]) =~= Seq::<
                                            Seq<char>,
                                        >::empty());
                                    }
                                } else {
                                    assert(item_hint_seq(items_v[j as int]) =~= Seq::<
                                        Seq<char>,
                                    >::empty());
                                }
                            },
                            _ => {
                                assert(item_hint_seq(items_v[j as int]) =~= Seq::<
                                    Seq<char>,
                                >::empty());
                            },
                        }
                    },
                    AttrNested::Lit(_) => {
                        assert(item_hint_seq(items_v[j as int]) =~= Seq::<Seq<char>>::empty());
                    },
                }
                assert(items_v.take(j + 1).drop_last() =~= items_v.take(j as int));
                assert(items_v.take(j + 1).last() == items_v[j as int]);
                assert(r.deep_view() =~= old_dv + item_hint_seq(items_v[j as int]));
                j += 1;
            }
            assert(items_v.take(items_v.len() as int) =~= items_v);
            assert(attrs@.take(i + 1).drop_last() =~= attrs@.take(i as int));
            assert(attrs@.take(i + 1).last() == attrs@[i as int]);
            assert(attr_hints(attrs@[i as int]) == items_hints(items_v));
        } else {
            assert(attrs@.take(i + 1).drop_last() =~= attrs@.take(i as int));
            assert(attrs@.take(i + 1).last() == attrs@[i as int]);
            assert(attr_hints(attrs@[i as int]) =~= Seq::<Seq<char>>::empty());
        }
        assert(r.deep_view() =~= hints_spec(attrs@.take(i + 1)));
        i += 1;
    }
    assert(attrs@.take(attrs@.len() as int) =~= attrs@);
    r
}

/// True exactly when some attribute in the recognized namespace carries the
/// bare word `ignore`; once seen, the flag is set, however often it occurs.
pub fn parse_attr_ignore(attrs: &Vec<Attr>) -> (r: bool)
    ensures
        r == ignore_spec(attrs@),
{
    let mut i: usize = 0;
    while i < attrs.len()
        invariant
            0 <= i <= attrs@.len(),
            forall|k: int| 0 <= k < i ==> !#[trigger] attr_ignore(attrs@[k]),
        decreases attrs@.len() - i,
    {
        if let Option::Some(items) = filter_attr_rtti(&attrs[i]) {
            let ghost items_v = items@;
            let mut j: usize = 0;
            while j < items.len()
                invariant
                    0 <= j <= items_v.len(),
                    items_v == items@,
                    rtti_list_items(attrs@[i as int]) == Option::Some(items_v),
                    i < attrs@.len(),
                    forall|k: int| 0 <= k < j ==> !#[trigger] item_ignore(items_v[k]),
                decreases items_v.len() - j,
            {
                if let AttrNested::Meta(m) = &items[j] {
                    if let AttrMeta::Word(w) = m {
                        if str_eq_word(w, "ignore") {
                            proof {
                                let a = attrs@[i as int];
                                assert(rtti_list_items(a)->0 == items_v);
                                assert(item_ignore(rtti_list_items(a)->0[j as int]));
                                assert(attr_ignore(a));
                            }
                            return true;
                        }
                    }
                }
                assert(!item_ignore(items_v[j as int]));
                j += 1;
            }
            assert(!attr_ignore(attrs@[i as int]));
        } else {
            assert(!attr_ignore(attrs@[i as int]));
        }
        i += 1;
    }
    false
}

} // verus!
