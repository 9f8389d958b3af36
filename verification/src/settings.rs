//! The settings transcoder.
//!
//! On disk a collection of settings is a mapping from title to definition;
//! in memory it is a sequence of records each carrying its own title. The
//! decode direction injects each map key into its record and sorts by title;
//! the encode direction emits each record under its title, with the title
//! left out of the emitted value. Both directions are pure; decoding is
//! canonical, so the order the document (or a map's iteration) presented the
//! entries in cannot show in the result.
use vstd::prelude::*;

verus! {

use vstd::multiset::Multiset;
use vstd::seq_lib::group_to_multiset_ensures;
use crate::strutil::{lex_leq, str_leq, lemma_lex_leq_total, lemma_lex_leq_antisymmetric,
    lemma_lex_leq_transitive};

broadcast use group_to_multiset_ensures;

/// One named, typed configuration parameter of an edge application.
#[derive(Debug, Clone, PartialEq, Eq)]
pub struct Setting {
    pub type_: String,
    pub default_value: String,
    pub title: String,
    pub optional: bool,
    pub help_text: String,
}

/// A setting as the document holds it: everything but the title, which is
/// the map key the definition stands under.
#[derive(Debug, Clone, PartialEq, Eq)]
pub struct SettingDef {
    pub type_: String,
    pub default_value: String,
    pub optional: bool,
    pub help_text: String,
}

impl Default for Setting {
    /// A blank setting: empty texts, not optional.
    fn default() -> (r: Setting)
        ensures
            r.title@ == Seq::<char>::empty(),
            r.type_@ == Seq::<char>::empty(),
            r.default_value@ == Seq::<char>::empty(),
            r.optional == false,
            r.help_text@ == Seq::<char>::empty(),
    {
        Setting {
            type_: String::new(),
            default_value: String::new(),
            title: String::new(),
            optional: false,
            help_text: String::new(),
        }
    }
}

/// The record a map entry decodes to: the key becomes the title.
pub open spec fn setting_of(title: String, def: SettingDef) -> Setting {
    Setting {
        title: title,
        type_: def.type_,
        default_value: def.default_value,
        optional: def.optional,
        help_text: def.help_text,
    }
}

/// The map entry a record encodes to.
pub open spec fn def_of(s: Setting) -> SettingDef {
    SettingDef {
        type_: s.type_,
        default_value: s.default_value,
        optional: s.optional,
        help_text: s.help_text,
    }
}

/// Map entries with their keys injected as titles, in entry order.
pub open spec fn injected(entries: Seq<(String, SettingDef)>) -> Seq<Setting> {
    entries.map_values(|p: (String, SettingDef)| setting_of(p.0, p.1))
}

/// Records encoded as map entries, in record order.
pub open spec fn encoded(settings: Seq<Setting>) -> Seq<(String, SettingDef)> {
    settings.map_values(|s: Setting| (s.title, def_of(s)))
}

/// Non-decreasing by title.
pub open spec fn settings_sorted(s: Seq<Setting>) -> bool {
    forall|i: int, j: int|
        0 <= i < j < s.len() ==> lex_leq(#[trigger] s[i].title@, #[trigger] s[j].title@)
}

/// No two records share a title.
pub open spec fn unique_titles(s: Seq<Setting>) -> bool {
    forall|i: int, j: int|
        0 <= i < j < s.len() ==> (#[trigger] s[i].title@) != (#[trigger] s[j].title@)
}

/// Inserts a record into a sequence sorted by title, keeping it sorted.
#[verifier::loop_isolation(false)]
fn insert_sorted(out: &mut Vec<Setting>, s: Setting)
    requires
        settings_sorted(old(out)@),
    ensures
        settings_sorted(final(out)@),
        final(out)@.to_multiset() == old(out)@.to_multiset().insert(s),
        final(out)@.len() == old(out)@.len() + 1,
{
    let n = out.len();
    let mut i: usize = 0;
    while i < n
        invariant
            i <= n,
            forall|k: int| 0 <= k < i ==> lex_leq((#[trigger] out@[k].title@), s.title@),
        decreases n - i,
    {
        if !str_leq(out[i].title.as_str(), s.title.as_str()) {
            break;
        }
        i = i + 1;
    }
    proof {
        if i < n {
            lemma_lex_leq_total(out@[i as int].title@, s.title@);
            assert(lex_leq(s.title@, out@[i as int].title@));
        }
    }
    let ghost prev = out@;
    out.insert(i, s);
    proof {
        let cur = out@;
        assert(cur =~= prev.insert(i as int, s));
        // sortedness: entries before i are below s, entries after are above
        assert forall|p: int, q: int| 0 <= p < q < cur.len() implies lex_leq(
            cur[p].title@,
            cur[q].title@,
        ) by {
            if p < i {
                assert(cur[p] == prev[p]);
            }
            if q < i {
                assert(cur[q] == prev[q]);
            }
            if p > i {
                assert(cur[p] == prev[p - 1]);
            }
            if q > i {
                assert(cur[q] == prev[q - 1]);
            }
            if p == i && q > i + 1 {
                lemma_lex_leq_transitive(s.title@, prev[i as int].title@, prev[q - 1].title@);
            }
        }
        // the new sequence holds exactly one more copy of `s`
        assert(cur.remove(i as int) =~= prev);
        assert(cur.remove(i as int).to_multiset() =~= cur.to_multiset().remove(cur[i as int]));
        assert(cur.to_multiset().contains(s)) by {
            assert(cur[i as int] == s);
            assert(cur.contains(s));
        }
        assert(cur.to_multiset() =~= prev.to_multiset().insert(s));
    }
}

/// Decodes a title-to-definition mapping, given as its entries in document
/// order: each key is injected as its record's title and the records come
/// out sorted by title. Only the collection of entries matters: see
/// [`lemma_decode_settings_canonical`].
#[verifier::loop_isolation(false)]
pub fn decode_settings(entries: Vec<(String, SettingDef)>) -> (r: Vec<Setting>)
    ensures
        settings_sorted(r@),
        r@.to_multiset() == injected(entries@).to_multiset(),
        r@.len() == entries@.len(),
{
    let ghost all = entries@;
    let mut rest = entries;
    let mut out: Vec<Setting> = Vec::new();
    proof {
        assert(out@.to_multiset() =~= Multiset::<Setting>::empty());
        assert(injected(all).to_multiset() =~= out@.to_multiset().add(
            injected(rest@).to_multiset(),
        ));
    }
    while rest.len() > 0
        invariant
            settings_sorted(out@),
            injected(all).to_multiset() == out@.to_multiset().add(injected(rest@).to_multiset()),
            out@.len() + rest@.len() == all.len(),
        decreases rest@.len(),
    {
        let ghost rest_prev = rest@;
        let entry = rest.pop().unwrap();
        let s = Setting {
            title: entry.0,
            type_: entry.1.type_,
            default_value: entry.1.default_value,
            optional: entry.1.optional,
            help_text: entry.1.help_text,
        };
        proof {
            let last = rest_prev.len() - 1;
            assert(rest_prev.remove(last) =~= rest@);
            assert(injected(rest_prev).remove(last) =~= injected(rest@));
            assert(injected(rest_prev).to_multiset().remove(injected(rest_prev)[last])
                =~= injected(rest@).to_multiset());
            assert(injected(rest_prev)[last] == s);
            assert(injected(rest_prev).to_multiset().contains(s)) by {
                assert(injected(rest_prev).contains(s));
            }
        }
        let ghost out_prev = out@;
        insert_sorted(&mut out, s);
        proof {
            assert(injected(all).to_multiset() =~= out@.to_multiset().add(
                injected(rest@).to_multiset(),
            )) by {
                assert(out@.to_multiset() =~= out_prev.to_multiset().insert(s));
                assert(injected(rest_prev).to_multiset() =~= injected(
                    rest@,
                ).to_multiset().insert(s));
            }
        }
    }
    proof {
        assert(injected(rest@).to_multiset() =~= Multiset::<Setting>::empty());
        assert(injected(all).to_multiset() =~= out@.to_multiset());
    }
    out
}

/// Encodes records as map entries, each under its title, the title left out
/// of the value.
#[verifier::loop_isolation(false)]
pub fn encode_settings(settings: &Vec<Setting>) -> (r: Vec<(String, SettingDef)>)
    ensures
        r@ == encoded(settings@),
{
    let n = settings.len();
    let mut out: Vec<(String, SettingDef)> = Vec::new();
    let mut i: usize = 0;
    proof {
        assert(out@ =~= encoded(settings@.take(0)));
    }
    while i < n
        invariant
            i <= n,
            out@ == encoded(settings@.take(i as int)),
        decreases n - i,
    {
        let s = &settings[i];
        let def = SettingDef {
            type_: s.type_.clone(),
            default_value: s.default_value.clone(),
            optional: s.optional,
            help_text: s.help_text.clone(),
        };
        out.push((s.title.clone(), def));
        proof {
            assert(settings@.take(i + 1) =~= settings@.take(i as int).push(settings@[i as int]));
            assert(out@ =~= encoded(settings@.take(i + 1)));
        }
        i = i + 1;
    }
    proof {
        assert(settings@.take(n as int) =~= settings@);
    }
    out
}

/// Decoding is canonical: two sequences that hold the same records, each
/// sorted by title, the titles unique, are the very same sequence. Since
/// [`decode_settings`] promises exactly sortedness and the collection of
/// injected records, two decodes of the same mapping agree whatever order
/// its entries were walked in.
pub proof fn lemma_decode_settings_canonical(s1: Seq<Setting>, s2: Seq<Setting>)
    requires
        settings_sorted(s1),
        settings_sorted(s2),
        unique_titles(s1),
        s1.to_multiset() == s2.to_multiset(),
    ensures
        s1 == s2,
    decreases s1.len(),
{
    assert(s1.len() == s1.to_multiset().len());
    assert(s2.len() == s2.to_multiset().len());
    if s1.len() == 0 {
        assert(s1 =~= s2);
    } else {
        assert(s1.to_multiset().contains(s1[0])) by {
            assert(s1.contains(s1[0]));
        }
        assert(s2.contains(s1[0]));
        let j = choose|j: int| 0 <= j < s2.len() && s2[j] == s1[0];
        assert(s2.to_multiset().contains(s2[0])) by {
            assert(s2.contains(s2[0]));
        }
        assert(s1.contains(s2[0]));
        let k = choose|k: int| 0 <= k < s1.len() && s1[k] == s2[0];
        // titles: s1[0] <= s1[k] == s2[0] <= s2[j] == s1[0]
        if k > 0 {
            assert(lex_leq(s1[0].title@, s1[k].title@));
        }
        if j > 0 {
            assert(lex_leq(s2[0].title@, s2[j].title@));
        }
        lemma_lex_leq_total(s1[0].title@, s2[0].title@);
        lemma_lex_leq_transitive(s1[0].title@, s1[k].title@, s2[j].title@);
        lemma_lex_leq_transitive(s2[0].title@, s2[j].title@, s1[k].title@);
        lemma_lex_leq_antisymmetric(s1[0].title@, s2[0].title@);
        assert(s1[k].title@ == s1[0].title@);
        if k != 0 {
            assert(false);
        }
        assert(s2[0] == s1[0]);
        let t1 = s1.drop_first();
        let t2 = s2.drop_first();
        assert(s1.remove(0) =~= t1);
        assert(s2.remove(0) =~= t2);
        assert(t1.to_multiset() =~= s1.to_multiset().remove(s1[0]));
        assert(t2.to_multiset() =~= s2.to_multiset().remove(s2[0]));
        assert(t1.to_multiset() == t2.to_multiset());
        assert(settings_sorted(t1)) by {
            assert(forall|p: int, q: int|
                0 <= p < q < t1.len() ==> t1[p] == s1[p + 1] && t1[q] == s1[q + 1]);
        }
        assert(settings_sorted(t2)) by {
            assert(forall|p: int, q: int|
                0 <= p < q < t2.len() ==> t2[p] == s2[p + 1] && t2[q] == s2[q + 1]);
        }
        assert(unique_titles(t1)) by {
            assert(forall|p: int, q: int|
                0 <= p < q < t1.len() ==> t1[p] == s1[p + 1] && t1[q] == s1[q + 1]);
        }
        lemma_decode_settings_canonical(t1, t2);
        assert forall|m: int| 0 <= m < s1.len() implies s1[m] == s2[m] by {
            if m > 0 {
                assert(t1[m - 1] == s1[m]);
                assert(t2[m - 1] == s2[m]);
            }
        }
        assert(s1 =~= s2);
    }
}

/// Round trip: a sequence already sorted by title with unique titles comes
/// back unchanged from encoding followed by decoding. `d` stands for any
/// sequence [`decode_settings`] may return for the encoded entries.
pub proof fn lemma_settings_round_trip(x: Seq<Setting>, d: Seq<Setting>)
    requires
        settings_sorted(x),
        unique_titles(x),
        settings_sorted(d),
        d.to_multiset() == injected(encoded(x)).to_multiset(),
    ensures
        d == x,
{
    assert(injected(encoded(x)) =~= x);
    lemma_decode_settings_canonical(x, d);
    assert(x == d);
}

} // verus!
