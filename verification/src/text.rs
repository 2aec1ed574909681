use vstd::prelude::*;

verus! {

/// Relies on `<str as PartialEq>::eq`: character-for-character equality.
#[verifier::external_body]
pub fn str_eq(a: &str, b: &str) -> (r: bool)
    ensures
        r == (a@ == b@),
{
    a == b
}

/// Relies on `String::push`: appends the character to the end of the string.
#[verifier::external_body]
pub fn push_char(s: &mut String, c: char)
    ensures
        final(s)@ == old(s)@.push(c),
{
    s.push(c);
}

/// A character a schema name keeps: an ASCII letter, a digit, an
/// underscore, or a hyphen.
pub open spec fn name_char(c: char) -> bool {
    ('a' <= c && c <= 'z') || ('A' <= c && c <= 'Z') || ('0' <= c && c <= '9') || c == '_' || c
        == '-'
}

/// The ASCII lowering of a single character; anything but an ASCII capital
/// letter is kept as it is.
pub open spec fn lower_char(c: char) -> char {
    match c {
        'A' => 'a',
        'B' => 'b',
        'C' => 'c',
        'D' => 'd',
        'E' => 'e',
        'F' => 'f',
        'G' => 'g',
        'H' => 'h',
        'I' => 'i',
        'J' => 'j',
        'K' => 'k',
        'L' => 'l',
        'M' => 'm',
        'N' => 'n',
        'O' => 'o',
        'P' => 'p',
        'Q' => 'q',
        'R' => 'r',
        'S' => 's',
        'T' => 't',
        'U' => 'u',
        'V' => 'v',
        'W' => 'w',
        'X' => 'x',
        'Y' => 'y',
        'Z' => 'z',
        _ => c,
    }
}

/// The sanitized, lowered tail of `s` from position `i` on: kept
/// characters are lowered, and each maximal run of other characters
/// becomes a single underscore. `prev_bad` says whether such a run is
/// already open just before position `i`.
pub open spec fn sanitize_from(s: Seq<char>, i: int, prev_bad: bool) -> Seq<char>
    decreases s.len() - i,
    when 0 <= i <= s.len()
{
    if i >= s.len() {
        Seq::empty()
    } else if name_char(s[i]) {
        seq![lower_char(s[i])] + sanitize_from(s, i + 1, false)
    } else if prev_bad {
        sanitize_from(s, i + 1, true)
    } else {
        seq!['_'] + sanitize_from(s, i + 1, true)
    }
}

/// The schema name derived from a type name: the name restricted to
/// letters, digits, underscore and hyphen — each run of other characters
/// replaced by one underscore — lowered, and suffixed with a fixed marker,
/// so names stay stable and collision-resistant across calls.
pub open spec fn schema_name_spec(s: Seq<char>) -> Seq<char> {
    sanitize_from(s, 0, false) + "_response"@
}

fn name_char_exec(c: char) -> (r: bool)
    ensures
        r == name_char(c),
{
    ('a' <= c && c <= 'z') || ('A' <= c && c <= 'Z') || ('0' <= c && c <= '9') || c == '_' || c
        == '-'
}

fn lower_char_exec(c: char) -> (r: char)
    ensures
        r == lower_char(c),
{
    match c {
        'A' => 'a',
        'B' => 'b',
        'C' => 'c',
        'D' => 'd',
        'E' => 'e',
        'F' => 'f',
        'G' => 'g',
        'H' => 'h',
        'I' => 'i',
        'J' => 'j',
        'K' => 'k',
        'L' => 'l',
        'M' => 'm',
        'N' => 'n',
        'O' => 'o',
        'P' => 'p',
        'Q' => 'q',
        'R' => 'r',
        'S' => 's',
        'T' => 't',
        'U' => 'u',
        'V' => 'v',
        'W' => 'w',
        'X' => 'x',
        'Y' => 'y',
        'Z' => 'z',
        _ => c,
    }
}

/// Derives the schema name for a type name, sanitized and suffixed.
#[verifier::loop_isolation(false)]
pub fn schema_name_for(raw_name: &str) -> (r: String)
    ensures
        r@ == schema_name_spec(raw_name@),
{
    let n = raw_name.unicode_len();
    let mut out = String::new();
    let mut prev_bad = false;
    let mut i: usize = 0;
    while i < n
        invariant
            0 <= i <= raw_name@.len(),
            n == raw_name@.len(),
            out@ + sanitize_from(raw_name@, i as int, prev_bad) == sanitize_from(
                raw_name@,
                0,
                false,
            ),
        decreases n - i,
    {
        let ghost out0 = out@;
        let ghost pb0 = prev_bad;
        let c = raw_name.get_char(i);
        if name_char_exec(c) {
            let lc = lower_char_exec(c);
            push_char(&mut out, lc);
            prev_bad = false;
            proof {
                assert(sanitize_from(raw_name@, i as int, pb0) == seq![lower_char(c)]
                    + sanitize_from(raw_name@, i as int + 1, false));
                assert(out@ =~= out0 + seq![lower_char(c)]);
                assert(out@ + sanitize_from(raw_name@, i as int + 1, prev_bad) =~= out0
                    + sanitize_from(raw_name@, i as int, pb0));
            }
        } else if prev_bad {
            proof {
                assert(sanitize_from(raw_name@, i as int, pb0) == sanitize_from(
                    raw_name@,
                    i as int + 1,
                    true,
                ));
            }
        } else {
            push_char(&mut out, '_');
            prev_bad = true;
            proof {
                assert(sanitize_from(raw_name@, i as int, pb0) == seq!['_'] + sanitize_from(
                    raw_name@,
                    i as int + 1,
                    true,
                ));
                assert(out@ =~= out0 + seq!['_']);
                assert(out@ + sanitize_from(raw_name@, i as int + 1, prev_bad) =~= out0
                    + sanitize_from(raw_name@, i as int, pb0));
            }
        }
        i += 1;
    }
    proof {
        assert(sanitize_from(raw_name@, i as int, prev_bad) =~= Seq::<char>::empty());
        assert(out@ =~= out@ + Seq::<char>::empty());
        assert(out@ == sanitize_from(raw_name@, 0, false));
    }
    out.append("_response");
    proof {
        assert(out@ =~= schema_name_spec(raw_name@));
    }
    out
}

} // verus!
