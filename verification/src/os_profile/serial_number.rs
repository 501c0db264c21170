//! VMware-style serial numbers, the form a virtual machine's SMBIOS reports.
use vstd::prelude::*;

use crate::text::{all_hex, ascii_lower, is_hex_char, is_hex_digit, is_ws, lower_char, string_of, to_chars, trim, trim_bounds};

verus! {

/// The characters of `s` taken two by two and joined by `sep`
/// (`ab cd ef` for `abcdef` and a space).
pub open spec fn join_pairs(s: Seq<char>, sep: char) -> Seq<char>
    decreases s.len(),
{
    if s.len() <= 2 {
        s
    } else {
        s.subrange(0, 2) + seq![sep] + join_pairs(s.subrange(2, s.len() as int), sep)
    }
}

/// The serial number for 32 lower-case hex digits:
/// `VMware-xx xx xx xx xx xx xx xx-xx xx xx xx xx xx xx xx`.
pub open spec fn vmware_serial(h: Seq<char>) -> Seq<char> {
    "VMware-"@ + join_pairs(h.subrange(0, 16), ' ') + seq!['-'] + join_pairs(h.subrange(16, 32), ' ')
}

/// What `vmware_from_compact_hex` gives: once trimmed, the text must be 32
/// hex digits.
pub open spec fn vmware_from_compact_hex_spec(compact: Seq<char>) -> Option<Seq<char>> {
    let t = trim(compact);
    if t.len() == 32 && all_hex(t) {
        Some(vmware_serial(ascii_lower(t)))
    } else {
        None
    }
}

/// The UUID text form: five groups of 8, 4, 4, 4 and 12 hex digits joined by
/// hyphens.
pub open spec fn is_uuid_form(u: Seq<char>) -> bool {
    &&& u.len() == 36
    &&& forall|i: int|
        0 <= i < 36 ==> if i == 8 || i == 13 || i == 18 || i == 23 {
            #[trigger] u[i] == '-'
        } else {
            is_hex_digit(u[i])
        }
}

/// The two-character groups of `s` in reverse order (the bytes of a
/// little-endian field).
pub open spec fn reverse_pairs(s: Seq<char>) -> Seq<char>
    decreases s.len(),
{
    if s.len() < 2 {
        s
    } else {
        s.subrange(s.len() - 2, s.len() as int) + reverse_pairs(s.subrange(0, s.len() - 2))
    }
}

/// The UUID's bytes in SMBIOS order: its first three fields byte-swapped,
/// all lower-cased.
pub open spec fn smbios_hex_of_uuid(u: Seq<char>) -> Seq<char> {
    let l = ascii_lower(u);
    reverse_pairs(l.subrange(0, 8)) + reverse_pairs(l.subrange(9, 13)) + reverse_pairs(
        l.subrange(14, 18),
    ) + l.subrange(19, 23) + l.subrange(24, 36)
}

/// What `vmware_from_uuid` gives: `None` for a text that is not a UUID.
pub open spec fn vmware_from_uuid_spec(u: Seq<char>) -> Option<Seq<char>> {
    if is_uuid_form(u) {
        vmware_from_compact_hex_spec(smbios_hex_of_uuid(u))
    } else {
        None
    }
}

/// Appends the pairs of `h[from..to]`, joined by `sep`.
fn push_pairs(out: &mut Vec<char>, h: &Vec<char>, from: usize, to: usize, sep: char)
    requires
        from + 2 <= to <= h.len(),
        (to - from) % 2 == 0,
    ensures
        final(out)@ == old(out)@ + join_pairs(h@.subrange(from as int, to as int), sep),
{
    let mut i = from;
    while to - i > 2
        invariant
            from <= i,
            i + 2 <= to <= h.len(),
            (to - i) % 2 == 0,
            out@ + join_pairs(h@.subrange(i as int, to as int), sep) == old(out)@ + join_pairs(
                h@.subrange(from as int, to as int),
                sep,
            ),
        decreases to - i,
    {
        let ghost rest = h@.subrange(i as int, to as int);
        assert(rest.subrange(0, 2) =~= seq![h@[i as int], h@[i + 1]]);
        assert(rest.subrange(2, rest.len() as int) =~= h@.subrange(i + 2, to as int));
        let ghost before = out@;
        out.push(h[i]);
        out.push(h[i + 1]);
        out.push(sep);
        assert(out@ =~= before + rest.subrange(0, 2) + seq![sep]);
        assert(before + join_pairs(rest, sep) =~= out@ + join_pairs(
            h@.subrange(i + 2, to as int),
            sep,
        ));
        i += 2;
    }
    let ghost rest = h@.subrange(i as int, to as int);
    let ghost before = out@;
    out.push(h[i]);
    out.push(h[i + 1]);
    assert(out@ =~= before + rest);
}

/// Appends the two-character groups of `h[from..to]` in reverse order.
fn push_reversed_pairs(out: &mut Vec<char>, h: &Vec<char>, from: usize, to: usize)
    requires
        from <= to <= h.len(),
        (to - from) % 2 == 0,
    ensures
        final(out)@ == old(out)@ + reverse_pairs(h@.subrange(from as int, to as int)),
{
    let mut i = to;
    while i - from >= 2
        invariant
            from <= i <= to <= h.len(),
            (i - from) % 2 == 0,
            out@ + reverse_pairs(h@.subrange(from as int, i as int)) == old(out)@ + reverse_pairs(
                h@.subrange(from as int, to as int),
            ),
        decreases i - from,
    {
        let ghost part = h@.subrange(from as int, i as int);
        assert(part.subrange(part.len() - 2, part.len() as int) =~= seq![
            h@[i - 2],
            h@[i - 1],
        ]);
        assert(part.subrange(0, part.len() - 2) =~= h@.subrange(from as int, i - 2));
        let ghost before = out@;
        out.push(h[i - 2]);
        out.push(h[i - 1]);
        assert(before + reverse_pairs(part) =~= out@ + reverse_pairs(
            h@.subrange(from as int, i - 2),
        ));
        i -= 2;
    }
    assert(h@.subrange(from as int, i as int).len() == 0);
    assert(out@ + reverse_pairs(h@.subrange(from as int, i as int)) =~= out@);
}

/// A text without whitespace at either end is its own trim.
pub proof fn lemma_trim_of_hex(s: Seq<char>)
    requires
        all_hex(s),
    ensures
        trim(s) == s,
{
    if s.len() > 0 {
        assert(is_hex_digit(s[0]));
        assert(is_hex_digit(s[s.len() - 1]));
        assert(!is_ws(s[0]));
        assert(!is_ws(s.last()));
    }
}

proof fn lemma_reverse_pairs_hex(s: Seq<char>)
    requires
        all_hex(s),
    ensures
        reverse_pairs(s).len() == s.len(),
        all_hex(reverse_pairs(s)),
    decreases s.len(),
{
    if s.len() >= 2 {
        let head = s.subrange(s.len() - 2, s.len() as int);
        let rest = s.subrange(0, s.len() - 2);
        assert(all_hex(rest)) by {
            assert forall|i: int| 0 <= i < rest.len() implies is_hex_digit(#[trigger] rest[i]) by {
                assert(rest[i] == s[i]);
            }
        }
        lemma_reverse_pairs_hex(rest);
        let r = head + reverse_pairs(rest);
        assert forall|i: int| 0 <= i < r.len() implies is_hex_digit(#[trigger] r[i]) by {
            if i < 2 {
                assert(r[i] == s[s.len() - 2 + i]);
            } else {
                assert(r[i] == reverse_pairs(rest)[i - 2]);
            }
        }
    }
}

/// A field of a UUID, lower-cased, is made of hex digits.
proof fn lemma_hex_field(u: Seq<char>, a: int, b: int)
    requires
        is_uuid_form(u),
        0 <= a <= b <= 36,
        !(a <= 8 < b),
        !(a <= 13 < b),
        !(a <= 18 < b),
        !(a <= 23 < b),
    ensures
        all_hex(ascii_lower(u).subrange(a, b)),
{
    let l = ascii_lower(u);
    assert forall|i: int| 0 <= i < b - a implies is_hex_digit(#[trigger] l.subrange(a, b)[i]) by {
        assert(u[a + i] == u[a + i]);
        assert(is_hex_digit(u[a + i]));
    }
}

/// Every text in the UUID form has a serial number in the VMware form.
pub proof fn lemma_uuid_has_vmware_serial(u: Seq<char>)
    requires
        is_uuid_form(u),
    ensures
        vmware_from_uuid_spec(u) is Some,
{
    let l = ascii_lower(u);
    lemma_hex_field(u, 0, 8);
    lemma_hex_field(u, 9, 13);
    lemma_hex_field(u, 14, 18);
    lemma_hex_field(u, 19, 23);
    lemma_hex_field(u, 24, 36);
    assert(all_hex(l.subrange(0, 8)));
    assert(all_hex(l.subrange(9, 13)));
    assert(all_hex(l.subrange(14, 18)));
    assert(all_hex(l.subrange(19, 23)));
    assert(all_hex(l.subrange(24, 36)));
    lemma_reverse_pairs_hex(l.subrange(0, 8));
    lemma_reverse_pairs_hex(l.subrange(9, 13));
    lemma_reverse_pairs_hex(l.subrange(14, 18));
    let parts = seq![
        reverse_pairs(l.subrange(0, 8)),
        reverse_pairs(l.subrange(9, 13)),
        reverse_pairs(l.subrange(14, 18)),
        l.subrange(19, 23),
        l.subrange(24, 36),
    ];
    let h = smbios_hex_of_uuid(u);
    assert(h.len() == 32);
    assert forall|i: int| 0 <= i < 32 implies is_hex_digit(#[trigger] h[i]) by {
        let p0 = reverse_pairs(l.subrange(0, 8));
        let p1 = reverse_pairs(l.subrange(9, 13));
        let p2 = reverse_pairs(l.subrange(14, 18));
        let p3 = l.subrange(19, 23);
        let p4 = l.subrange(24, 36);
        if i < 8 {
            assert(h[i] == p0[i]);
        } else if i < 12 {
            assert(h[i] == p1[i - 8]);
        } else if i < 16 {
            assert(h[i] == p2[i - 12]);
        } else if i < 20 {
            assert(h[i] == p3[i - 16]);
        } else {
            assert(h[i] == p4[i - 20]);
        }
    }
    lemma_trim_of_hex(h);
}

/// A serial number in the VMware form for 32 hex digits, surrounding
/// whitespace allowed; `None` for anything else.
pub fn vmware_from_compact_hex(compact: &str) -> (r: Option<String>)
    ensures
        match r {
            Some(s) => vmware_from_compact_hex_spec(compact@) == Some(s@),
            None => vmware_from_compact_hex_spec(compact@) is None,
        },
{
    let v = to_chars(compact);
    let (a, b) = trim_bounds(&v);
    if b - a != 32 {
        return None;
    }
    let mut h: Vec<char> = Vec::new();
    let mut i = a;
    while i < b
        invariant
            a <= i <= b <= v.len(),
            b - a == 32,
            v@.subrange(a as int, b as int) == trim(compact@),
            v@ == compact@,
            h@ == ascii_lower(v@.subrange(a as int, i as int)),
            all_hex(v@.subrange(a as int, i as int)),
        decreases b - i,
    {
        let c = v[i];
        if !is_hex_char(c) {
            assert(!all_hex(trim(compact@))) by {
                assert(trim(compact@)[i - a] == c);
            }
            return None;
        }
        let l = lower_char(c);
        h.push(l);
        assert(ascii_lower(v@.subrange(a as int, i + 1)) =~= ascii_lower(
            v@.subrange(a as int, i as int),
        ).push(l));
        assert(all_hex(v@.subrange(a as int, i + 1))) by {
            assert forall|j: int| 0 <= j < i + 1 - a implies is_hex_digit(
                #[trigger] v@.subrange(a as int, i + 1)[j],
            ) by {
                if j < i - a {
                    assert(v@.subrange(a as int, i + 1)[j] == v@.subrange(a as int, i as int)[j]);
                }
            }
        }
        i += 1;
    }
    let mut out: Vec<char> = Vec::new();
    out.push('V');
    out.push('M');
    out.push('w');
    out.push('a');
    out.push('r');
    out.push('e');
    out.push('-');
    proof {
        reveal_strlit("VMware-");
        assert(out@ =~= "VMware-"@);
    }
    push_pairs(&mut out, &h, 0, 16, ' ');
    out.push('-');
    push_pairs(&mut out, &h, 16, 32, ' ');
    assert(h@.subrange(0, 16) =~= ascii_lower(trim(compact@)).subrange(0, 16));
    assert(h@.subrange(16, 32) =~= ascii_lower(trim(compact@)).subrange(16, 32));
    let n = out.len();
    let s = string_of(&out, 0, n);
    assert(out@.subrange(0, n as int) =~= out@);
    Some(s)
}

/// A serial number in the VMware form for a UUID: its bytes in SMBIOS order
/// (the first three fields byte-swapped); `None` when the text is not a
/// UUID.
pub fn vmware_from_uuid(uuid: &str) -> (r: Option<String>)
    ensures
        match r {
            Some(s) => vmware_from_uuid_spec(uuid@) == Some(s@),
            None => vmware_from_uuid_spec(uuid@) is None,
        },
{
    let v = to_chars(uuid);
    if v.len() != 36 {
        return None;
    }
    let mut l: Vec<char> = Vec::new();
    let mut i: usize = 0;
    while i < 36
        invariant
            i <= 36,
            v.len() == 36,
            v@ == uuid@,
            l@ == ascii_lower(v@.take(i as int)),
            forall|j: int|
                0 <= j < i ==> if j == 8 || j == 13 || j == 18 || j == 23 {
                    #[trigger] v@[j] == '-'
                } else {
                    is_hex_digit(v@[j])
                },
        decreases 36 - i,
    {
        let c = v[i];
        let ok = if i == 8 || i == 13 || i == 18 || i == 23 {
            c == '-'
        } else {
            is_hex_char(c)
        };
        if !ok {
            return None;
        }
        let lc = lower_char(c);
        l.push(lc);
        assert(ascii_lower(v@.take(i + 1)) =~= ascii_lower(v@.take(i as int)).push(lc));
        i += 1;
    }
    assert(v@.take(36) =~= v@);
    let mut compact: Vec<char> = Vec::new();
    push_reversed_pairs(&mut compact, &l, 0, 8);
    push_reversed_pairs(&mut compact, &l, 9, 13);
    push_reversed_pairs(&mut compact, &l, 14, 18);
    let mut k: usize = 19;
    while k < 23
        invariant
            19 <= k <= 23,
            l.len() == 36,
            compact@ == reverse_pairs(l@.subrange(0, 8)) + reverse_pairs(l@.subrange(9, 13))
                + reverse_pairs(l@.subrange(14, 18)) + l@.subrange(19, k as int),
        decreases 23 - k,
    {
        compact.push(l[k]);
        assert(l@.subrange(19, k + 1) =~= l@.subrange(19, k as int).push(l@[k as int]));
        k += 1;
    }
    let ghost head = compact@;
    let mut k: usize = 24;
    assert(l@.subrange(24, 24) =~= Seq::<char>::empty());
    assert(compact@ =~= head + l@.subrange(24, 24));
    while k < 36
        invariant
            24 <= k <= 36,
            l.len() == 36,
            head == reverse_pairs(l@.subrange(0, 8)) + reverse_pairs(l@.subrange(9, 13))
                + reverse_pairs(l@.subrange(14, 18)) + l@.subrange(19, 23),
            compact@ == head + l@.subrange(24, k as int),
        decreases 36 - k,
    {
        compact.push(l[k]);
        assert(l@.subrange(24, k + 1) =~= l@.subrange(24, k as int).push(l@[k as int]));
        k += 1;
    }
    assert(l@ =~= ascii_lower(uuid@));
    let n = compact.len();
    let text = string_of(&compact, 0, n);
    assert(compact@.subrange(0, n as int) =~= compact@);
    vmware_from_compact_hex(text.as_str())
}

} // verus!
