//! The fixed-width 16-bit character encoding used by record name tails:
//! which characters it can represent, how a name becomes a sequence of
//! code units, and how a null-terminated tail is read back as text.

use crate::bytes::le16_at;
use vstd::prelude::*;

verus! {

/// A character the fixed-width 16-bit encoding can represent.
pub open spec fn is_ucs2(c: char) -> bool {
    0 <= c as int <= 0xFFFF
}

/// Every character of the sequence is representable.
pub open spec fn all_ucs2(s: Seq<char>) -> bool {
    forall|i: int| 0 <= i < s.len() ==> is_ucs2(s[i])
}

/// The 16-bit code units of a name, one unit per character.
pub open spec fn ucs2_units(s: Seq<char>) -> Seq<u16> {
    s.map(|_i: int, c: char| (c as u32) as u16)
}

/// No character of the sequence is the terminator itself.
pub open spec fn nul_free(s: Seq<char>) -> bool {
    forall|i: int| 0 <= i < s.len() ==> s[i] != '\0'
}

/// A well-formed tail: at least one unit, and the last one is the terminator.
pub open spec fn tail_wf(t: Seq<u16>) -> bool {
    t.len() >= 1 && t[t.len() - 1] == 0
}

/// A tail whose only terminator is the final unit, as the terminator scan
/// yields it.
pub open spec fn tail_strict(t: Seq<u16>) -> bool {
    tail_wf(t) && (forall|k: int| 0 <= k < t.len() - 1 ==> t[k] != 0)
}

/// The units of tail `t` are stored little-endian in `b` starting at `off`.
pub open spec fn tail_at(b: Seq<u8>, off: int, t: Seq<u16>) -> bool {
    &&& tail_wf(t)
    &&& 0 <= off
    &&& off + 2 * t.len() <= b.len()
    &&& forall|k: int| 0 <= k < t.len() ==> le16_at(b, off + 2 * k) == t[k]
}

/// The text of a tail: its units before the first terminator.
pub open spec fn tail_text(t: Seq<u16>) -> Seq<u16>
    decreases t.len(),
{
    if t.len() == 0 || t[0] == 0 {
        Seq::empty()
    } else {
        seq![t[0]] + tail_text(t.drop_first())
    }
}

/// The text of a tail is its prefix up to the first terminator.
pub proof fn lemma_tail_text_is_prefix(t: Seq<u16>, n: int)
    requires
        0 <= n < t.len(),
        t[n] == 0,
        forall|k: int| 0 <= k < n ==> t[k] != 0,
    ensures
        tail_text(t) == t.take(n),
    decreases n,
{
    if n == 0 {
        assert(tail_text(t) =~= t.take(0));
    } else {
        lemma_tail_text_is_prefix(t.drop_first(), n - 1);
        assert(tail_text(t) =~= t.take(n));
    }
}

/// Two terminator-scanned tails laid out at the same place in the same bytes
/// are the same tail.
pub proof fn lemma_tail_at_unique(b: Seq<u8>, off: int, t1: Seq<u16>, t2: Seq<u16>)
    requires
        tail_at(b, off, t1),
        tail_at(b, off, t2),
        tail_strict(t1),
        tail_strict(t2),
    ensures
        t1 == t2,
{
    if t1.len() < t2.len() {
        assert(t1[t1.len() - 1] == le16_at(b, off + 2 * (t1.len() - 1)));
        assert(t2[t1.len() - 1] != 0);
        assert(false);
    } else if t2.len() < t1.len() {
        assert(t2[t2.len() - 1] == le16_at(b, off + 2 * (t2.len() - 1)));
        assert(t1[t2.len() - 1] != 0);
        assert(false);
    } else {
        assert(t1 =~= t2);
    }
}

/// Reading the tail built from a terminator-free name yields exactly the
/// name's code units.
pub proof fn lemma_tail_text_of_name(name: Seq<char>)
    requires
        all_ucs2(name),
        nul_free(name),
    ensures
        tail_text(ucs2_units(name).push(0)) == ucs2_units(name),
    decreases name.len(),
{
    let t = ucs2_units(name).push(0);
    assert(t.len() == name.len() + 1);
    if name.len() == 0 {
        assert(t[0] == 0);
        assert(tail_text(t) =~= ucs2_units(name));
    } else {
        assert(is_ucs2(name[0]));
        assert(name[0] != '\0');
        assert(name[0] as int != 0);
        assert(t[0] == (name[0] as u32) as u16);
        assert((name[0] as u32) as u16 == name[0] as int);
        assert(t[0] != 0);
        assert(all_ucs2(name.drop_first())) by {
            assert(forall|i: int|
                0 <= i < name.drop_first().len() ==> name.drop_first()[i] == name[i + 1]);
        }
        assert(nul_free(name.drop_first()));
        lemma_tail_text_of_name(name.drop_first());
        assert(t.drop_first() =~= ucs2_units(name.drop_first()).push(0));
        assert(tail_text(t) == seq![t[0]] + tail_text(t.drop_first()));
        assert(tail_text(t) =~= ucs2_units(name));
    }
}

/// On representable characters, distinct names have distinct code units.
pub proof fn lemma_ucs2_units_injective(a: Seq<char>, b: Seq<char>)
    requires
        all_ucs2(a),
        all_ucs2(b),
        ucs2_units(a) == ucs2_units(b),
    ensures
        a == b,
{
    assert(ucs2_units(a).len() == a.len());
    assert(ucs2_units(b).len() == b.len());
    assert forall|i: int| 0 <= i < a.len() implies a[i] == b[i] by {
        assert(is_ucs2(a[i]));
        assert(is_ucs2(b[i]));
        assert(ucs2_units(a)[i] == (a[i] as u32) as u16);
        assert(ucs2_units(b)[i] == (b[i] as u32) as u16);
        assert((a[i] as u32) as u16 == a[i] as int);
        assert((b[i] as u32) as u16 == b[i] as int);
        assert(a[i] as int == b[i] as int);
    }
    assert(a =~= b);
}

/// `c` is the first character of `s` that the encoding cannot represent.
pub open spec fn first_bad_char(s: Seq<char>, c: char) -> bool {
    exists|i: int|
        0 <= i < s.len() && !is_ucs2(#[trigger] s[i]) && c == s[i] && (forall|j: int|
            0 <= j < i ==> is_ucs2(s[j]))
}

/// Transcode a name to its fixed-width code units, or report the first
/// character the encoding cannot represent.
pub fn str_to_ucs2(name: &str) -> (r: Result<Vec<u16>, char>)
    ensures
        match r {
            Ok(v) => all_ucs2(name@) && v@ == ucs2_units(name@),
            Err(c) => !all_ucs2(name@) && first_bad_char(name@, c),
        },
{
    let n = name.unicode_len();
    let mut v: Vec<u16> = Vec::new();
    let mut i: usize = 0;
    while i < n
        invariant
            n == name@.len(),
            i <= n,
            v@ == ucs2_units(name@.take(i as int)),
            forall|j: int| 0 <= j < i ==> is_ucs2(#[trigger] name@[j]),
        decreases n - i,
    {
        let c = name.get_char(i);
        let u = c as u32;
        if u > 0xFFFF {
            proof {
                assert(c as u32 == c as int);
                assert(!is_ucs2(name@[i as int]));
            }
            return Err(c);
        }
        v.push(#[verifier::truncate] (u as u16));
        proof {
            assert(c as u32 == c as int);
            assert(is_ucs2(name@[i as int]));
            assert(ucs2_units(name@.take(i + 1)) =~= ucs2_units(name@.take(i as int)).push(
                (c as u32) as u16,
            ));
        }
        i = i + 1;
    }
    proof {
        assert(name@.take(n as int) =~= name@);
    }
    Ok(v)
}

/// The tail built from a representable, terminator-free name carries its
/// terminator only at the end.
pub proof fn lemma_built_tail_strict(name: Seq<char>)
    requires
        all_ucs2(name),
        nul_free(name),
    ensures
        tail_strict(ucs2_units(name).push(0)),
{
    let t = ucs2_units(name).push(0);
    assert forall|k: int| 0 <= k < t.len() - 1 implies t[k] != 0 by {
        assert(is_ucs2(name[k]));
        assert(name[k] != '\0');
        assert(t[k] == (name[k] as u32) as u16);
        assert((name[k] as u32) as u16 == name[k] as int);
    }
}

/// Building a tail from a representable, terminator-free name and reading
/// it back through the terminator scan yields exactly the original name:
/// the scanned text equals the name's code units, and no other such name
/// shares those units.
pub proof fn lemma_name_round_trip(name: Seq<char>, tail: Seq<u16>)
    requires
        all_ucs2(name),
        nul_free(name),
        tail == ucs2_units(name).push(0),
    ensures
        tail_text(tail) == ucs2_units(name),
        forall|other: Seq<char>|
            all_ucs2(other) && ucs2_units(other) == ucs2_units(name) ==> other == name,
{
    lemma_tail_text_of_name(name);
    assert forall|other: Seq<char>|
        all_ucs2(other) && ucs2_units(other) == ucs2_units(name) implies other == name by {
        lemma_ucs2_units_injective(other, name);
    }
}

/// A validated text value: 16-bit code units with no embedded terminator,
/// as read back from a record's name tail.
pub struct CStr16 {
    units: Vec<u16>,
}

impl View for CStr16 {
    type V = Seq<u16>;

    closed spec fn view(&self) -> Seq<u16> {
        self.units@
    }
}

impl CStr16 {
    /// No unit of the text is the terminator.
    pub open spec fn wf(&self) -> bool {
        forall|i: int| 0 <= i < self@.len() ==> self@[i] != 0
    }

    /// Number of characters in the text, the terminator not counted.
    pub fn num_chars(&self) -> (n: usize)
        ensures
            n == self@.len(),
    {
        self.units.len()
    }

    /// The text's code units.
    pub fn as_units(&self) -> (r: &Vec<u16>)
        ensures
            r@ == self@,
    {
        &self.units
    }

    /// Read the text of a null-terminated tail: its units before the first
    /// terminator.
    pub fn from_tail(tail: &Vec<u16>) -> (r: CStr16)
        requires
            tail_wf(tail@),
        ensures
            r.wf(),
            r@ == tail_text(tail@),
    {
        let mut units: Vec<u16> = Vec::new();
        let mut i: usize = 0;
        loop
            invariant
                tail_wf(tail@),
                i < tail.len(),
                units@ =~= tail@.take(i as int),
                forall|j: int| 0 <= j < i ==> tail@[j] != 0,
            decreases tail@.len() - i,
        {
            let u = tail[i];
            if u == 0 {
                proof {
                    lemma_tail_text_is_prefix(tail@, i as int);
                }
                return CStr16 { units };
            }
            units.push(u);
            i = i + 1;
            proof {
                if i >= tail@.len() {
                    assert(tail@[tail@.len() - 1] == 0);
                    assert(false);
                }
            }
        }
    }
}

} // verus!
