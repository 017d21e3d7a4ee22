//! The immutable, canonically ordered catalog of emoji records, and the
//! query surface over it.

use vstd::prelude::*;
use vstd::string::StringExecFns;

use crate::emoji::{Emoji, EmojiView};
use crate::group::{group_index, Group};
use crate::skin_tone::{tone_index, tone_of_index, SkinTone};

verus! {

broadcast use vstd::seq_lib::group_filter_ensures;

/// The complete, immutable, ordered set of emoji records. Its iteration
/// order (the record positions) is the single source of truth for all
/// relative ordering of emojis.
pub struct Catalog {
    entries: Vec<Emoji>,
}

/// The images of a sequence of records.
pub open spec fn seq_views(entries: Seq<Emoji>) -> Seq<EmojiView> {
    entries.map_values(|e: Emoji| e@)
}

/// The images of a sequence of borrowed records.
pub open spec fn ref_views(entries: Seq<&Emoji>) -> Seq<EmojiView> {
    entries.map_values(|e: &Emoji| e@)
}

impl View for Catalog {
    type V = Seq<EmojiView>;

    closed spec fn view(&self) -> Seq<EmojiView> {
        seq_views(self.entries@)
    }
}

/// Every record's stored position is its actual position.
pub open spec fn ids_ok(s: Seq<EmojiView>) -> bool {
    forall|i: int| 0 <= i < s.len() ==> (#[trigger] s[i]).id == i
}

/// No two records share a backing sequence, so position lookup by sequence
/// is a bijection.
pub open spec fn sequences_unique(s: Seq<EmojiView>) -> bool {
    forall|i: int, j: int|
        0 <= i < s.len() && 0 <= j < s.len() && i != j ==> (#[trigger] s[i]).sequence != (
        #[trigger] s[j]).sequence
}

/// Records are laid out category by category, in the fixed category order.
pub open spec fn groups_sorted(s: Seq<EmojiView>) -> bool {
    forall|i: int, j: int|
        0 <= i <= j < s.len() ==> group_index((#[trigger] s[i]).group) <= group_index(
            (#[trigger] s[j]).group,
        )
}

/// If the record at `i` carries a skin-tone tag, it is a member of a complete
/// family: six consecutive records, starting `tone_index` places before it,
/// tagged `Default` through `Dark` in order and all in one category.
pub open spec fn family_ok_at(s: Seq<EmojiView>, i: int) -> bool {
    match s[i].skin_tone {
        None => true,
        Some(t) => {
            let b = i - tone_index(t);
            &&& 0 <= b
            &&& b + 6 <= s.len()
            &&& forall|j: int|
                b <= j < b + 6 ==> (#[trigger] s[j]).skin_tone == Some(tone_of_index(j - b))
                    && s[j].group == s[i].group
        },
    }
}

/// Every skin-tone-tagged record sits inside a complete family.
pub open spec fn families_ok(s: Seq<EmojiView>) -> bool {
    forall|i: int| 0 <= i < s.len() ==> #[trigger] family_ok_at(s, i)
}

/// A well-formed catalog image: positions stored faithfully, backing
/// sequences unique, categories contiguous and in order, skin-tone families
/// complete.
pub open spec fn wf_seq(s: Seq<EmojiView>) -> bool {
    ids_ok(s) && sequences_unique(s) && groups_sorted(s) && families_ok(s)
}

/// `e` is (the image of) a record of the catalog image `s`, at its stored
/// position.
pub open spec fn in_catalog(e: EmojiView, s: Seq<EmojiView>) -> bool {
    0 <= e.id < s.len() && s[e.id] == e
}

impl Catalog {
    /// The catalog's image is well-formed.
    pub open spec fn wf(&self) -> bool {
        wf_seq(self@)
    }

    /// How many records the catalog holds, skin-tone variants included.
    pub fn len(&self) -> (n: usize)
        ensures
            n == self@.len(),
    {
        self.entries.len()
    }
}

/// The one tolerated difference on lookup: the sequences agree exactly, or
/// they agree once a single trailing emoji-presentation selector (U+FE0F) is
/// appended to whichever side lacks it. No other variation selector, and no
/// selector anywhere else in the sequence, is forgiven.
pub open spec fn vs_match(a: Seq<char>, b: Seq<char>) -> bool {
    a == b || a == b.push('\u{fe0f}') || b == a.push('\u{fe0f}')
}

/// What `lookup` returns: the first record, in catalog order, whose sequence
/// matches the query under `vs_match`, or `None` when no record matches.
pub open spec fn lookup_spec(s: Seq<EmojiView>, q: Seq<char>) -> Option<EmojiView>
    decreases s.len(),
{
    if s.len() == 0 {
        None
    } else if lookup_spec(s.drop_last(), q) is Some {
        lookup_spec(s.drop_last(), q)
    } else if vs_match(s.last().sequence, q) {
        Some(s.last())
    } else {
        None
    }
}

/// A record counts for plain iteration when it is not a non-default
/// skin-tone variant: callers see one representative per family.
pub open spec fn is_default_entry(e: EmojiView) -> bool {
    e.skin_tone is None || e.skin_tone == Some(SkinTone::Default)
}

/// The predicate `iter` filters by.
pub open spec fn default_pred() -> spec_fn(EmojiView) -> bool {
    |e: EmojiView| is_default_entry(e)
}

/// The records plain iteration yields, in catalog order.
pub open spec fn default_entries(s: Seq<EmojiView>) -> Seq<EmojiView> {
    s.filter(default_pred())
}

/// The predicate a single category's iteration filters by.
pub open spec fn group_pred(g: Group) -> spec_fn(EmojiView) -> bool {
    |e: EmojiView| e.group == g && is_default_entry(e)
}

/// The records one category's iteration yields, in catalog order.
pub open spec fn group_entries(s: Seq<EmojiView>, g: Group) -> Seq<EmojiView> {
    s.filter(group_pred(g))
}

/// Whether plain iteration keeps this record.
fn entry_is_default(e: &Emoji) -> (b: bool)
    ensures
        b == is_default_entry(e@),
{
    match e.skin_tone {
        None => true,
        Some(SkinTone::Default) => true,
        Some(_) => false,
    }
}

/// Lookup by Unicode value: the first record whose sequence equals the query
/// up to one trailing emoji-presentation selector. Absence is an expected
/// result, never an error.
pub fn lookup<'a>(cat: &'a Catalog, text: &str) -> (r: Option<&'a Emoji>)
    ensures
        r is Some <==> lookup_spec(cat@, text@) is Some,
        r matches Some(e) ==> lookup_spec(cat@, text@) == Some(e@),
{
    let needle = String::from_str(text);
    let needle_vs = String::from_str(text).concat("\u{fe0f}");
    proof {
        reveal_strlit("\u{fe0f}");
        assert(needle_vs@ =~= text@.push('\u{fe0f}'));
    }
    let n = cat.entries.len();
    let mut found: Option<usize> = None;
    let mut i: usize = 0;
    while i < n
        invariant
            i <= n,
            n == cat.entries.len(),
            needle@ == text@,
            needle_vs@ == text@.push('\u{fe0f}'),
            match found {
                None => lookup_spec(cat@.take(i as int), text@) is None,
                Some(j) => j < n && lookup_spec(cat@.take(i as int), text@) == Some(cat@[j as int]),
            },
        decreases n - i,
    {
        if found.is_none() {
            let e = &cat.entries[i];
            proof {
                assert(cat@[i as int] == cat.entries@[i as int]@);
            }
            let mut m = e.sequence == needle;
            if !m {
                m = e.sequence == needle_vs;
            }
            if !m {
                let evs = e.sequence.clone().concat("\u{fe0f}");
                proof {
                    reveal_strlit("\u{fe0f}");
                    assert(evs@ =~= cat@[i as int].sequence.push('\u{fe0f}'));
                }
                m = evs == needle;
            }
            proof {
                assert(m == vs_match(cat@[i as int].sequence, text@));
            }
            if m {
                found = Some(i);
            }
        }
        proof {
            assert(cat@.take(i + 1).drop_last() =~= cat@.take(i as int));
            assert(cat@.take(i + 1).last() == cat@[i as int]);
        }
        i += 1;
    }
    proof {
        assert(cat@.take(n as int) =~= cat@);
    }
    match found {
        None => None,
        Some(j) => {
            let e = &cat.entries[j];
            proof {
                assert(cat@[j as int] == cat.entries@[j as int]@);
            }
            Some(e)
        },
    }
}

/// All emojis a plain walk of the catalog surfaces, in catalog (CLDR) order:
/// every record that is not a non-default skin-tone variant. Iterating twice
/// yields identical results, since the catalog never changes.
pub fn iter<'a>(cat: &'a Catalog) -> (v: Vec<&'a Emoji>)
    ensures
        ref_views(v@) == default_entries(cat@),
        forall|k: int| 0 <= k < v@.len() ==> is_default_entry(#[trigger] v@[k]@),
{
    let n = cat.entries.len();
    let mut v: Vec<&Emoji> = Vec::new();
    let mut i: usize = 0;
    while i < n
        invariant
            i <= n,
            n == cat.entries.len(),
            ref_views(v@) == default_entries(cat@.take(i as int)),
            forall|k: int| 0 <= k < v@.len() ==> is_default_entry(#[trigger] v@[k]@),
        decreases n - i,
    {
        let e = &cat.entries[i];
        proof {
            assert(cat@[i as int] == cat.entries@[i as int]@);
            assert(cat@.take(i + 1).drop_last() =~= cat@.take(i as int));
            assert(cat@.take(i + 1).last() == cat@[i as int]);
        }
        let ghost old_v = v@;
        if entry_is_default(e) {
            v.push(e);
            proof {
                assert(ref_views(v@) =~= ref_views(old_v).push(cat@[i as int]));
            }
        }
        proof {
            reveal_with_fuel(Seq::<_>::filter, 2);
            assert(ref_views(v@) == default_entries(cat@.take(i + 1)));
        }
        i += 1;
    }
    proof {
        assert(cat@.take(n as int) =~= cat@);
    }
    v
}

impl Group {
    /// Every emoji of this category that plain iteration surfaces, in
    /// catalog order.
    pub fn emojis<'a>(&self, cat: &'a Catalog) -> (v: Vec<&'a Emoji>)
        ensures
            ref_views(v@) == group_entries(cat@, *self),
            forall|k: int|
                0 <= k < v@.len() ==> (#[trigger] v@[k])@.group == *self && is_default_entry(
                    v@[k]@,
                ),
    {
        let n = cat.entries.len();
        let mut v: Vec<&Emoji> = Vec::new();
        let mut i: usize = 0;
        while i < n
            invariant
                i <= n,
                n == cat.entries.len(),
                ref_views(v@) == group_entries(cat@.take(i as int), *self),
            decreases n - i,
        {
            let e = &cat.entries[i];
            proof {
                assert(cat@[i as int] == cat.entries@[i as int]@);
                assert(cat@.take(i + 1).drop_last() =~= cat@.take(i as int));
                assert(cat@.take(i + 1).last() == cat@[i as int]);
            }
            let ghost old_v = v@;
            if e.group == *self && entry_is_default(e) {
                v.push(e);
                proof {
                    assert(ref_views(v@) =~= ref_views(old_v).push(cat@[i as int]));
                }
            }
            proof {
                reveal_with_fuel(Seq::<_>::filter, 2);
                assert(ref_views(v@) == group_entries(cat@.take(i + 1), *self));
            }
            i += 1;
        }
        proof {
            assert(cat@.take(n as int) =~= cat@);
            assert forall|k: int|
                0 <= k < v@.len() implies (#[trigger] v@[k])@.group == *self && is_default_entry(
                v@[k]@,
            ) by {
                assert(ref_views(v@)[k] == v@[k]@);
                assert((group_pred(*self))(group_entries(cat@, *self)[k]));
            }
        }
        v
    }
}


/// The position of the `Default` member of the family of `e`: meaningful
/// when `e` carries a skin-tone tag, in which case the family occupies the
/// six consecutive positions starting there.
pub open spec fn family_base(e: EmojiView) -> int {
    match e.skin_tone {
        Some(t) => e.id - tone_index(t),
        None => e.id,
    }
}

/// The member of the family of `e` that is tagged `t`.
pub open spec fn family_member(s: Seq<EmojiView>, e: EmojiView, t: SkinTone) -> EmojiView {
    s[family_base(e) + tone_index(t)]
}

impl Emoji {
    /// The six members of this emoji's skin-tone family, tagged `Default`
    /// through `Dark` in that order; `None` exactly when the emoji has no
    /// skin-tone concept.
    pub fn skin_tones<'a>(&self, cat: &'a Catalog) -> (r: Option<Vec<&'a Emoji>>)
        requires
            cat.wf(),
            in_catalog(self@, cat@),
        ensures
            r is Some <==> self@.skin_tone is Some,
            r matches Some(v) ==> {
                &&& v@.len() == 6
                &&& forall|k: int|
                    0 <= k < 6 ==> (#[trigger] v@[k])@ == family_member(cat@, self@, tone_of_index(k))
                &&& forall|k: int|
                    0 <= k < 6 ==> (#[trigger] v@[k])@.skin_tone == Some(tone_of_index(k))
            },
    {
        match self.skin_tone {
            None => None,
            Some(t) => {
                proof {
                    assert(family_ok_at(cat@, self@.id));
                }
                let ti = t.index();
                let b = self.id - ti;
                let mut v: Vec<&Emoji> = Vec::new();
                let mut k: usize = 0;
                while k < 6
                    invariant
                        cat.wf(),
                        in_catalog(self@, cat@),
                        self@.skin_tone == Some(t),
                        b as int == family_base(self@),
                        b + 6 <= cat@.len(),
                        k <= 6,
                        v@.len() == k,
                        forall|m: int| 0 <= m < k ==> (#[trigger] v@[m])@ == cat@[b + m],
                    decreases 6 - k,
                {
                    let e = &cat.entries[b + k];
                    proof {
                        assert(cat@[b + k] == cat.entries@[b + k]@);
                    }
                    v.push(e);
                    k += 1;
                }
                proof {
                    assert(family_ok_at(cat@, self@.id));
                    assert forall|k2: int| 0 <= k2 < 6 implies (#[trigger] v@[k2])@ == family_member(
                        cat@,
                        self@,
                        tone_of_index(k2),
                    ) && v@[k2]@.skin_tone == Some(tone_of_index(k2)) by {
                        assert(v@[k2]@ == cat@[b + k2]);
                    }
                }
                Some(v)
            },
        }
    }

    /// The family sibling of this emoji tagged `tone`; `None` exactly when
    /// the emoji has no skin-tone concept. Resolving a sibling of a sibling
    /// lands on the same record, so the operation is idempotent.
    pub fn with_skin_tone<'a>(&self, cat: &'a Catalog, tone: SkinTone) -> (r: Option<&'a Emoji>)
        requires
            cat.wf(),
            in_catalog(self@, cat@),
        ensures
            r is Some <==> self@.skin_tone is Some,
            r matches Some(e) ==> {
                &&& e@ == family_member(cat@, self@, tone)
                &&& e@.skin_tone == Some(tone)
                &&& in_catalog(e@, cat@)
            },
    {
        match self.skin_tone {
            None => None,
            Some(t) => {
                proof {
                    assert(family_ok_at(cat@, self@.id));
                }
                let b = self.id - t.index();
                let idx = b + tone.index();
                let e = &cat.entries[idx];
                proof {
                    assert(cat@[idx as int] == cat.entries@[idx as int]@);
                }
                Some(e)
            },
        }
    }
}


/// `s` with every record's stored position overwritten by its actual
/// position.
pub open spec fn with_ids(s: Seq<EmojiView>) -> Seq<EmojiView> {
    s.map(
        |i: int, e: EmojiView|
            EmojiView {
                id: i,
                sequence: e.sequence,
                group: e.group,
                subgroup: e.subgroup,
                shortcodes: e.shortcodes,
                version: e.version,
                skin_tone: e.skin_tone,
            },
    )
}

/// Whether any two records share a backing sequence.
fn check_unique(entries: &Vec<Emoji>) -> (b: bool)
    ensures
        b == sequences_unique(seq_views(entries@)),
{
    let ghost s = seq_views(entries@);
    let n = entries.len();
    let mut i: usize = 0;
    while i < n
        invariant
            s == seq_views(entries@),
            n == entries.len(),
            i <= n,
            forall|p: int, q: int|
                0 <= p < q < n && p < i ==> (#[trigger] s[p]).sequence != (#[trigger] s[q]).sequence,
        decreases n - i,
    {
        let mut j: usize = i + 1;
        while j < n
            invariant
                s == seq_views(entries@),
                n == entries.len(),
                i < n,
                i + 1 <= j <= n,
                forall|p: int, q: int|
                    0 <= p < q < n && p < i ==> (#[trigger] s[p]).sequence != (
                    #[trigger] s[q]).sequence,
                forall|q: int| i < q < j ==> (#[trigger] s[q]).sequence != s[i as int].sequence,
            decreases n - j,
        {
            if entries[i].sequence == entries[j].sequence {
                proof {
                    assert(s[i as int].sequence == s[j as int].sequence);
                    assert(!sequences_unique(s));
                }
                return false;
            }
            j += 1;
        }
        i += 1;
    }
    proof {
        assert forall|p: int, q: int|
            0 <= p < s.len() && 0 <= q < s.len() && p != q implies (#[trigger] s[p]).sequence != (
        #[trigger] s[q]).sequence by {
            if p < q {
            } else {
                assert(s[q].sequence != s[p].sequence);
            }
        }
    }
    true
}

/// Whether the records are laid out category by category, in order.
fn check_grouping(entries: &Vec<Emoji>) -> (b: bool)
    ensures
        b == groups_sorted(seq_views(entries@)),
{
    let ghost s = seq_views(entries@);
    let n = entries.len();
    if n == 0 {
        return true;
    }
    let mut i: usize = 1;
    while i < n
        invariant
            s == seq_views(entries@),
            n == entries.len(),
            1 <= i <= n,
            forall|p: int, q: int|
                0 <= p <= q < i ==> group_index((#[trigger] s[p]).group) <= group_index(
                    (#[trigger] s[q]).group,
                ),
        decreases n - i,
    {
        proof {
            assert(s[i - 1] == entries@[i - 1]@);
            assert(s[i as int] == entries@[i as int]@);
        }
        let gprev = entries[i - 1].group.index();
        let gcur = entries[i].group.index();
        if gcur < gprev {
            proof {
                assert(!groups_sorted(s));
            }
            return false;
        }
        proof {
            assert forall|p: int, q: int|
                0 <= p <= q < i + 1 implies group_index((#[trigger] s[p]).group) <= group_index(
                (#[trigger] s[q]).group,
            ) by {
                if q == i && p < i {
                    assert(group_index(s[p].group) <= group_index(s[i - 1].group));
                }
            }
        }
        i += 1;
    }
    true
}

/// Whether every skin-tone-tagged record sits inside a complete family.
fn check_families(entries: &Vec<Emoji>) -> (b: bool)
    ensures
        b == families_ok(seq_views(entries@)),
{
    let ghost s = seq_views(entries@);
    let n = entries.len();
    let mut i: usize = 0;
    while i < n
        invariant
            s == seq_views(entries@),
            n == entries.len(),
            i <= n,
            forall|p: int| 0 <= p < i ==> #[trigger] family_ok_at(s, p),
        decreases n - i,
    {
        match entries[i].skin_tone {
            None => {
                proof {
                    assert(s[i as int] == entries@[i as int]@);
                    assert(family_ok_at(s, i as int));
                }
            },
            Some(t) => {
                let ti = t.index();
                if i < ti {
                    proof {
                        assert(s[i as int] == entries@[i as int]@);
                        assert(!family_ok_at(s, i as int));
                    }
                    return false;
                }
                let base = i - ti;
                if n - base < 6 {
                    proof {
                        assert(s[i as int] == entries@[i as int]@);
                        assert(!family_ok_at(s, i as int));
                    }
                    return false;
                }
                let here = entries[i].group;
                let mut j: usize = 0;
                while j < 6
                    invariant
                        s == seq_views(entries@),
                        n == entries.len(),
                        i < n,
                        s[i as int].skin_tone == Some(t),
                        ti as int == tone_index(t),
                        base == i - ti,
                        base + 6 <= n,
                        here == s[i as int].group,
                        j <= 6,
                        forall|q: int|
                            0 <= q < j ==> (#[trigger] s[base + q]).skin_tone == Some(
                                tone_of_index(q),
                            ) && s[base + q].group == s[i as int].group,
                    decreases 6 - j,
                {
                    let sibling = &entries[base + j];
                    proof {
                        assert(s[base + j] == entries@[base + j]@);
                    }
                    let expect = SkinTone::of_index(j);
                    let tone_ok = match sibling.skin_tone {
                        Some(u) => u == expect,
                        None => false,
                    };
                    let group_ok = sibling.group == here;
                    if !tone_ok || !group_ok {
                        proof {
                            assert(!family_ok_at(s, i as int));
                        }
                        return false;
                    }
                    j += 1;
                }
                proof {
                    assert forall|j2: int|
                        i - ti <= j2 < i - ti + 6 implies (#[trigger] s[j2]).skin_tone == Some(
                        tone_of_index(j2 - (i - ti)),
                    ) && s[j2].group == s[i as int].group by {
                        let q = j2 - (base as int);
                        assert(s[base + q].skin_tone == Some(tone_of_index(q)));
                        assert(s[base + q].group == s[i as int].group);
                        assert(base + q == j2);
                    }
                    assert(family_ok_at(s, i as int));
                }
            },
        }
        i += 1;
    }
    true
}

impl Catalog {
    /// Validate and adopt a generated record sequence. Positions are
    /// assigned in catalog order first; the result is `Some` exactly when
    /// the records, so positioned, form a well-formed catalog, and the
    /// catalog then holds exactly those records.
    pub fn from_entries(entries: &Vec<Emoji>) -> (r: Option<Catalog>)
        ensures
            r is Some <==> wf_seq(with_ids(seq_views(entries@))),
            r matches Some(c) ==> c@ == with_ids(seq_views(entries@)),
    {
        let ghost target = with_ids(seq_views(entries@));
        let n = entries.len();
        let mut out: Vec<Emoji> = Vec::new();
        let mut i: usize = 0;
        while i < n
            invariant
                target == with_ids(seq_views(entries@)),
                n == entries.len(),
                i <= n,
                seq_views(out@) == target.take(i as int),
            decreases n - i,
        {
            let e = &entries[i];
            let rec = Emoji {
                id: i,
                sequence: e.sequence.clone(),
                group: e.group,
                subgroup: e.subgroup.clone(),
                shortcodes: e.shortcodes.clone(),
                version: e.version,
                skin_tone: e.skin_tone,
            };
            proof {
                assert forall|k: int| 0 <= k < e.shortcodes@.len() implies rec.shortcodes@[k]
                    == e.shortcodes@[k] by {
                    assert(cloned(e.shortcodes@[k], rec.shortcodes@[k]));
                }
                assert(rec.shortcodes@ =~= e.shortcodes@);
                assert(rec.shortcodes.deep_view() =~= e.shortcodes.deep_view());
                assert(rec@ =~= target[i as int]);
            }
            let ghost old_out = out@;
            out.push(rec);
            proof {
                assert(seq_views(out@) =~= seq_views(old_out).push(rec@));
                assert(seq_views(out@) =~= target.take(i + 1));
            }
            i += 1;
        }
        proof {
            assert(target.take(n as int) =~= target);
        }
        if !check_unique(&out) {
            return None;
        }
        if !check_grouping(&out) {
            return None;
        }
        if !check_families(&out) {
            return None;
        }
        proof {
            assert(ids_ok(seq_views(out@)));
        }
        Some(Catalog { entries: out })
    }
}


/// A record that `lookup` returns is a catalog member at its stored
/// position, so the skin-tone queries may be applied to it.
pub proof fn lemma_lookup_in_catalog(s: Seq<EmojiView>, q: Seq<char>)
    requires
        ids_ok(s),
    ensures
        lookup_spec(s, q) matches Some(e) ==> in_catalog(e, s),
    decreases s.len(),
{
    if s.len() > 0 {
        let s0 = s.drop_last();
        assert(forall|i: int| 0 <= i < s0.len() ==> s0[i] == s[i]);
        lemma_lookup_in_catalog(s0, q);
        match lookup_spec(s0, q) {
            Some(e) => {
                assert(s[e.id] == e);
            },
            None => {},
        }
    }
}

/// Whatever a filtering walk of the catalog keeps was in the catalog.
proof fn lemma_filter_subset(s: Seq<EmojiView>, pred: spec_fn(EmojiView) -> bool)
    ensures
        forall|k: int|
            0 <= k < s.filter(pred).len() ==> s.contains(#[trigger] s.filter(pred)[k]),
    decreases s.len(),
{
    reveal_with_fuel(Seq::<_>::filter, 2);
    if s.len() > 0 {
        let s0 = s.drop_last();
        lemma_filter_subset(s0, pred);
        assert forall|k: int|
            0 <= k < s.filter(pred).len() implies s.contains(#[trigger] s.filter(pred)[k]) by {
            let e = s.filter(pred)[k];
            if k < s0.filter(pred).len() {
                assert(s0.contains(e));
                let i = choose|i: int| 0 <= i < s0.len() && s0[i] == e;
                assert(s[i] == e);
            } else {
                assert(e == s.last());
                assert(s[s.len() - 1] == e);
            }
        }
    }
}

/// A record that a filtering walk yields — plain iteration or a category's
/// iteration — is a catalog member at its stored position, so the skin-tone
/// queries may be applied to it.
pub proof fn lemma_yielded_in_catalog(s: Seq<EmojiView>, pred: spec_fn(EmojiView) -> bool)
    requires
        ids_ok(s),
    ensures
        forall|k: int|
            0 <= k < s.filter(pred).len() ==> in_catalog(#[trigger] s.filter(pred)[k], s),
{
    lemma_filter_subset(s, pred);
    assert forall|k: int|
        0 <= k < s.filter(pred).len() implies in_catalog(#[trigger] s.filter(pred)[k], s) by {
        let e = s.filter(pred)[k];
        let i = choose|i: int| 0 <= i < s.len() && s[i] == e;
        assert(s[i].id == i);
    }
}

} // verus!
