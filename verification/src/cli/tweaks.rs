//! The `tweak` subcommand: the listing of the options and the recommended set.
use crate::interactive::sections::{categories, category_views, get_all_sections};
use crate::interactive::types::OptItem;
use crate::text::{char_vec, owned, push_char, push_str};
use vstd::prelude::*;

verus! {

/// The width of the identifier column of the listing.
pub const ID_COLUMN: usize = 20;

/// The identifiers of the options of `items` that are selected by default.
pub open spec fn default_ids(items: Seq<OptItem>) -> Seq<&'static str>
    decreases items.len(),
{
    if items.len() == 0 {
        Seq::empty()
    } else {
        default_ids(items.drop_last()) + if items.last().default {
            seq![items.last().id]
        } else {
            Seq::empty()
        }
    }
}

/// The identifiers of the options of all `cats` that are selected by
/// default, category after category.
pub open spec fn recommended(cats: Seq<(&'static str, Seq<OptItem>)>) -> Seq<&'static str>
    decreases cats.len(),
{
    if cats.len() == 0 {
        Seq::empty()
    } else {
        recommended(cats.drop_last()) + default_ids(cats.last().1)
    }
}

/// The identifiers of the recommended options, which `tweak apply-all`
/// applies in this order.
pub fn recommended_ids() -> (r: Vec<&'static str>)
    ensures
        r@ == recommended(categories()),
{
    let sections = get_all_sections();
    let ghost cats = categories();
    let mut r: Vec<&'static str> = Vec::new();
    let mut c: usize = 0;
    while c < sections.len()
        invariant
            category_views(sections@) == cats,
            c <= sections@.len(),
            r@ == recommended(cats.take(c as int)),
        decreases sections.len() - c,
    {
        let items = &sections[c].1;
        assert(category_views(sections@)[c as int] == (sections@[c as int].0, items@));
        let ghost base = r@;
        let mut j: usize = 0;
        while j < items.len()
            invariant
                j <= items@.len(),
                r@ == base + default_ids(items@.take(j as int)),
            decreases items.len() - j,
        {
            if items[j].default {
                r.push(items[j].id);
            }
            assert(items@.take(j + 1).drop_last() =~= items@.take(j as int));
            assert(r@ =~= base + default_ids(items@.take(j + 1)));
            j = j + 1;
        }
        assert(items@.take(j as int) =~= items@);
        assert(cats.take(c + 1).drop_last() =~= cats.take(c as int));
        c = c + 1;
    }
    assert(cats.take(c as int) =~= cats);
    r
}

/// `s` padded with spaces on the right to `width` characters.
pub open spec fn padded(s: Seq<char>, width: nat) -> Seq<char> {
    if s.len() < width {
        s + Seq::new((width - s.len()) as nat, |_i: int| ' ')
    } else {
        s
    }
}

/// The line of an option in the listing: its identifier in a column of
/// [`ID_COLUMN`] characters, then its label.
pub fn tweak_list_line(id: &str, label: &str) -> (r: String)
    ensures
        r@ == "  - "@ + padded(id@, ID_COLUMN as nat) + " : "@ + label@,
{
    let mut r = owned("  - ");
    push_str(&mut r, id);
    let n = char_vec(id).len();
    let ghost start = r@;
    if n < ID_COLUMN {
        let pad = ID_COLUMN - n;
        let mut k: usize = 0;
        while k < pad
            invariant
                k <= pad,
                r@ == start + Seq::new(k as nat, |_i: int| ' '),
            decreases pad - k,
        {
            push_char(&mut r, ' ');
            assert(Seq::new((k + 1) as nat, |_i: int| ' ') =~= Seq::new(k as nat, |_i: int| ' ').push(' '));
            k = k + 1;
        }
    }
    push_str(&mut r, " : ");
    push_str(&mut r, label);
    assert(r@ =~= "  - "@ + padded(id@, ID_COLUMN as nat) + " : "@ + label@);
    r
}

} // verus!
