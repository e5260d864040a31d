//! Small verified helpers over `String` and `&str`: path-style joining,
//! decimal rendering of integers, and character-wise string equality.

use vstd::prelude::*;
use vstd::string::StringExecFns;
use vstd::string::StrSliceExecFns;

verus! {

/// The sequence `base + "/" + name`, the building block of every path
/// in a job directory.
pub open spec fn spec_join(base: Seq<char>, name: Seq<char>) -> Seq<char> {
    base + seq!['/'] + name
}

/// Joins a directory and an entry name with a single `/` separator.
pub fn join_path(base: &str, name: &str) -> (r: String)
    ensures
        r@ == spec_join(base@, name@),
{
    proof {
        reveal_strlit("/");
    }
    let mut s = base.to_owned();
    s.append("/");
    s.append(name);
    proof {
        assert(("/")@ =~= seq!['/']);
        assert(s@ =~= spec_join(base@, name@));
    }
    s
}

/// The decimal digit characters of `n`, most significant first.
pub open spec fn spec_decimal(n: nat) -> Seq<char>
    decreases n,
{
    if n < 10 {
        seq![digit_char(n)]
    } else {
        spec_decimal(n / 10) + seq![digit_char(n % 10)]
    }
}

/// The character for one decimal digit.
pub open spec fn digit_char(d: nat) -> char {
    if d == 0 { '0' }
    else if d == 1 { '1' }
    else if d == 2 { '2' }
    else if d == 3 { '3' }
    else if d == 4 { '4' }
    else if d == 5 { '5' }
    else if d == 6 { '6' }
    else if d == 7 { '7' }
    else if d == 8 { '8' }
    else { '9' }
}

fn digit_to_char(d: u64) -> (c: char)
    requires
        d < 10,
    ensures
        c == digit_char(d as nat),
{
    if d == 0 { '0' }
    else if d == 1 { '1' }
    else if d == 2 { '2' }
    else if d == 3 { '3' }
    else if d == 4 { '4' }
    else if d == 5 { '5' }
    else if d == 6 { '6' }
    else if d == 7 { '7' }
    else if d == 8 { '8' }
    else { '9' }
}

/// Relies on String::push: appends the given character to the end of
/// the string.
#[verifier::external_body]
pub fn push_char(s: &mut String, c: char)
    ensures
        final(s)@ == old(s)@ + seq![c],
{
    s.push(c)
}

/// Renders `n` in decimal, as the external renderer expects its
/// frame-range arguments.
pub fn u64_to_string(n: u64) -> (r: String)
    ensures
        r@ == spec_decimal(n as nat),
{
    let mut r = String::new();
    let mut m: u64 = n;
    loop
        invariant_except_break
            spec_decimal(n as nat) =~= spec_decimal(m as nat) + r@,
        ensures
            r@ =~= spec_decimal(n as nat),
        decreases m,
    {
        let d = m % 10;
        let c = digit_to_char(d);
        let mut t = String::new();
        push_char(&mut t, c);
        t.append(r.as_str());
        proof {
            assert(t@ =~= seq![c] + r@);
        }
        if m < 10 {
            proof {
                assert(spec_decimal(m as nat) =~= seq![digit_char((m % 10) as nat)]);
                assert(spec_decimal(n as nat) =~= t@);
            }
            r = t;
            break;
        }
        proof {
            assert(spec_decimal(m as nat) =~= spec_decimal((m / 10) as nat) + seq![
                digit_char((m % 10) as nat),
            ]);
            assert(spec_decimal(n as nat) =~= spec_decimal((m / 10) as nat) + t@);
        }
        r = t;
        m = m / 10;
    }
    r
}

/// True when the two strings hold the same characters.
pub fn str_eq(a: &str, b: &str) -> (r: bool)
    ensures
        r == (a@ == b@),
{
    let la = a.unicode_len();
    let lb = b.unicode_len();
    if la != lb {
        proof {
            assert(a@ != b@);
        }
        return false;
    }
    let mut i: usize = 0;
    while i < la
        invariant
            la == a@.len(),
            lb == b@.len(),
            la == lb,
            i <= la,
            forall|j: int| 0 <= j < i ==> a@[j] == b@[j],
        decreases la - i,
    {
        if a.get_char(i) != b.get_char(i) {
            proof {
                assert(a@[i as int] != b@[i as int]);
            }
            return false;
        }
        i = i + 1;
    }
    proof {
        assert(a@ =~= b@);
    }
    true
}

} // verus!
