//! The library-wide laws: properties that relate several queries, stated
//! over the same models the queries' contracts use, and proved once for
//! every well-formed catalog.

use vstd::prelude::*;
use vstd::std_specs::cmp::{PartialEqSpec, PartialOrdSpec};

use crate::catalog::{
    default_entries, default_pred, family_base, family_member, family_ok_at, group_entries,
    group_pred, in_catalog, is_default_entry, wf_seq,
};
use crate::emoji::{Emoji, EmojiView};
use crate::group::{group_index, group_of_index, lemma_group_index_bijective};
use crate::skin_tone::{lemma_tone_index_bijective, tone_index, SkinTone};

verus! {

/// Catalog position is the only ordering source, and on catalog members it
/// is consistent with equality: two members compare equal exactly when they
/// sit at the same position (sequence lookup is a bijection), `a < b` holds
/// exactly when `a` sits earlier, every member equals itself, and the order
/// is antisymmetric and transitive.
pub proof fn lemma_ordering_consistency(c: Seq<EmojiView>, a: Emoji, b: Emoji, d: Emoji)
    requires
        wf_seq(c),
        in_catalog(a@, c),
        in_catalog(b@, c),
        in_catalog(d@, c),
    ensures
        a.eq_spec(&b) <==> a@.id == b@.id,
        a.partial_cmp_spec(&b) == Some(core::cmp::Ordering::Less) <==> a@.id < b@.id,
        a.eq_spec(&a),
        a.partial_cmp_spec(&b) == Some(core::cmp::Ordering::Less) ==> b.partial_cmp_spec(&a)
            != Some(core::cmp::Ordering::Less),
        a.partial_cmp_spec(&b) == Some(core::cmp::Ordering::Less) && b.partial_cmp_spec(&d)
            == Some(core::cmp::Ordering::Less) ==> a.partial_cmp_spec(&d) == Some(
            core::cmp::Ordering::Less,
        ),
{
    if a@.sequence == b@.sequence && a@.id != b@.id {
        assert(c[a@.id].sequence != c[b@.id].sequence);
        assert(false);
    }
    if a@.id == b@.id {
        assert(c[a@.id] == a@);
        assert(c[b@.id] == b@);
    }
}

/// Skin-tone round trip: from any member of a family, every tone resolves to
/// a catalog member of the same family and category, tagged with exactly the
/// requested tone; resolving again from that member lands where resolving
/// from the original member would, so the resolution is idempotent; and the
/// `Default` tone resolves to the family's base member, the same one for
/// every member of the family.
pub proof fn lemma_skin_tone_round_trip(c: Seq<EmojiView>, e: EmojiView, t: SkinTone, u: SkinTone)
    requires
        wf_seq(c),
        in_catalog(e, c),
        e.skin_tone is Some,
    ensures
        in_catalog(family_member(c, e, t), c),
        family_member(c, e, t).skin_tone == Some(t),
        family_member(c, e, t).group == e.group,
        family_base(family_member(c, e, t)) == family_base(e),
        family_member(c, family_member(c, e, t), u) == family_member(c, e, u),
        family_member(c, e, SkinTone::Default) == c[family_base(e)],
{
    assert(family_ok_at(c, e.id));
    let b = family_base(e);
    lemma_tone_index_bijective(t, tone_index(t));
    lemma_tone_index_bijective(u, tone_index(u));
    let m = c[b + tone_index(t)];
    assert(m.skin_tone == Some(crate::skin_tone::tone_of_index(b + tone_index(t) - b)));
    assert(m.id == b + tone_index(t));
}

/// Shortcode consistency: the distinguished shortcode is the head of the
/// full shortcode list — `Some` of the list's first element when the list
/// is non-empty, `None` when it is empty.
pub proof fn lemma_shortcode_consistency(e: EmojiView)
    ensures
        e.shortcodes.len() > 0 ==> crate::emoji::first_shortcode(e) == Some(e.shortcodes.first()),
        e.shortcodes.len() == 0 ==> crate::emoji::first_shortcode(e) is None,
{
}

/// Filtering keeps nothing when the predicate holds of no element.
proof fn lemma_filter_none(s: Seq<EmojiView>, pred: spec_fn(EmojiView) -> bool)
    requires
        forall|i: int| 0 <= i < s.len() ==> !pred(#[trigger] s[i]),
    ensures
        s.filter(pred) == Seq::<EmojiView>::empty(),
    decreases s.len(),
{
    reveal_with_fuel(Seq::<_>::filter, 2);
    if s.len() > 0 {
        assert(forall|i: int| 0 <= i < s.drop_last().len() ==> s.drop_last()[i] == s[i]);
        lemma_filter_none(s.drop_last(), pred);
        assert(!pred(s.last()));
    }
}

/// Predicates that agree on every element filter to the same subsequence.
proof fn lemma_filter_agree(
    s: Seq<EmojiView>,
    p: spec_fn(EmojiView) -> bool,
    q: spec_fn(EmojiView) -> bool,
)
    requires
        forall|i: int| 0 <= i < s.len() ==> p(#[trigger] s[i]) == q(s[i]),
    ensures
        s.filter(p) == s.filter(q),
    decreases s.len(),
{
    reveal_with_fuel(Seq::<_>::filter, 2);
    if s.len() > 0 {
        assert(forall|i: int| 0 <= i < s.drop_last().len() ==> s.drop_last()[i] == s[i]);
        lemma_filter_agree(s.drop_last(), p, q);
        assert(p(s.last()) == q(s.last()));
    }
}

/// The records whose category sits among the first `n` categories and which
/// plain iteration surfaces.
pub open spec fn earlier_groups_pred(n: int) -> spec_fn(EmojiView) -> bool {
    |e: EmojiView| group_index(e.group) < n && is_default_entry(e)
}

/// The concatenation of the per-category iterations of the first `n`
/// categories, category by category in the fixed order.
pub open spec fn groups_concat_upto(c: Seq<EmojiView>, n: int) -> Seq<EmojiView>
    decreases n,
{
    if n <= 0 {
        Seq::empty()
    } else {
        groups_concat_upto(c, n - 1) + group_entries(c, group_of_index(n - 1))
    }
}

/// On a category-sorted catalog, appending category `n`'s records to the
/// records of the earlier categories gives the records of the first `n + 1`
/// categories: the per-category blocks are contiguous and in order.
proof fn lemma_filter_split(c: Seq<EmojiView>, n: int)
    requires
        crate::catalog::groups_sorted(c),
        0 <= n < 9,
    ensures
        c.filter(earlier_groups_pred(n)) + c.filter(group_pred(group_of_index(n))) == c.filter(
            earlier_groups_pred(n + 1),
        ),
    decreases c.len(),
{
    broadcast use vstd::seq_lib::group_seq_lib_default;

    reveal_with_fuel(Seq::<_>::filter, 2);
    lemma_group_index_bijective(group_of_index(n), n);
    if c.len() == 0 {
        assert(c.filter(earlier_groups_pred(n)) + c.filter(group_pred(group_of_index(n))) =~= c.filter(
            earlier_groups_pred(n + 1),
        ));
    } else {
        let c0 = c.drop_last();
        let x = c.last();
        let gx = group_index(x.group);
        assert(forall|i: int| 0 <= i < c0.len() ==> c0[i] == c[i]);
        assert(crate::catalog::groups_sorted(c0));
        if gx < n {
            assert forall|i: int| 0 <= i < c.len() implies !(group_pred(group_of_index(n)))(
                #[trigger] c[i],
            ) by {
                assert(group_index(c[i].group) <= gx);
                lemma_group_index_bijective(c[i].group, n);
            }
            lemma_filter_none(c, group_pred(group_of_index(n)));
            assert forall|i: int| 0 <= i < c.len() implies (earlier_groups_pred(n))(#[trigger] c[i])
                == (earlier_groups_pred(n + 1))(c[i]) by {
                assert(group_index(c[i].group) <= gx);
            }
            lemma_filter_agree(c, earlier_groups_pred(n), earlier_groups_pred(n + 1));
        } else {
            lemma_filter_split(c0, n);
        }
    }
}

/// The records of the first `n` categories, walked category by category,
/// are exactly the plainly iterated records whose category sits among the
/// first `n`, in catalog order.
proof fn lemma_concat_upto(c: Seq<EmojiView>, n: int)
    requires
        crate::catalog::groups_sorted(c),
        0 <= n <= 9,
    ensures
        groups_concat_upto(c, n) == c.filter(earlier_groups_pred(n)),
    decreases n,
{
    if n == 0 {
        assert(forall|i: int| 0 <= i < c.len() ==> !(earlier_groups_pred(0))(#[trigger] c[i]));
        lemma_filter_none(c, earlier_groups_pred(0));
    } else {
        lemma_concat_upto(c, n - 1);
        lemma_filter_split(c, n - 1);
    }
}

/// Group partition: walking the categories in order and, within each, the
/// catalog in order, reproduces plain iteration exactly — same records, same
/// order, nothing repeated, nothing missed.
pub proof fn lemma_group_partition(c: Seq<EmojiView>)
    requires
        wf_seq(c),
    ensures
        groups_concat_upto(c, 9) == default_entries(c),
{
    lemma_concat_upto(c, 9);
    assert forall|i: int| 0 <= i < c.len() implies (earlier_groups_pred(9))(#[trigger] c[i])
        == (default_pred())(c[i]) by {
        lemma_group_index_bijective(c[i].group, 0);
    }
    lemma_filter_agree(c, earlier_groups_pred(9), default_pred());
}


/// Variation-selector equivalence: a query without the trailing
/// emoji-presentation selector and the same query with it resolve to the
/// same record, whether the catalog stores the sequence with the selector or
/// without it — provided no catalog sequence ends in the selector twice (no
/// Unicode emoji sequence does).
pub proof fn lemma_lookup_selector_equivalent(s: Seq<EmojiView>, q: Seq<char>)
    requires
        forall|i: int|
            0 <= i < s.len() ==> (#[trigger] s[i]).sequence != q.push('\u{fe0f}').push('\u{fe0f}'),
        q.len() == 0 || q.last() != '\u{fe0f}',
    ensures
        crate::catalog::lookup_spec(s, q) == crate::catalog::lookup_spec(s, q.push('\u{fe0f}')),
    decreases s.len(),
{
    if s.len() > 0 {
        let s0 = s.drop_last();
        assert(forall|i: int| 0 <= i < s0.len() ==> s0[i] == s[i]);
        lemma_lookup_selector_equivalent(s0, q);
        let e = s.last().sequence;
        assert(crate::catalog::vs_match(e, q) == crate::catalog::vs_match(
            e,
            q.push('\u{fe0f}'),
        )) by {
            if q == e.push('\u{fe0f}') {
                assert(q.last() == '\u{fe0f}');
                assert(false);
            }
            if q.push('\u{fe0f}') == e.push('\u{fe0f}') {
                assert(q.push('\u{fe0f}').drop_last() =~= q);
                assert(e.push('\u{fe0f}').drop_last() =~= e);
                assert(q == e);
            }
            assert(e != q.push('\u{fe0f}').push('\u{fe0f}'));
        }
    }
}

} // verus!
