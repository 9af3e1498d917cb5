//! The command-line configuration grammar and its first-wins fold.
//!
//! The last argument names the command to execute and may not contain `=`.
//! Everywhere else, `before=<N>d` and `ca=<path>` fragments are recognized,
//! each field independently taking the earliest set occurrence: the first
//! non-zero day count and the first non-empty path win.

use vstd::prelude::*;

use crate::ascii::{digit_val, digit_value, is_digit, is_digit_char};
use crate::parse_usr_cmd::Cmd;

verus! {

/// Value of a string of decimal digits, most significant first.
pub open spec fn spec_digits_val(s: Seq<char>) -> int
    decreases s.len(),
{
    if s.len() == 0 {
        0
    } else {
        10 * spec_digits_val(s.drop_last()) + digit_val(s.last())
    }
}

/// A `before=<N>d` fragment: the literal prefix, at least one digit, and a
/// final `d`.
pub open spec fn spec_is_before_fragment(s: Seq<char>) -> bool {
    &&& s.len() >= 9
    &&& s[0] == 'b' && s[1] == 'e' && s[2] == 'f' && s[3] == 'o' && s[4] == 'r' && s[5] == 'e'
        && s[6] == '='
    &&& s[s.len() - 1] == 'd'
    &&& forall|i: int| 7 <= i < s.len() - 1 ==> is_digit(#[trigger] s[i])
}

/// The number of days named by a `before=<N>d` fragment.
pub open spec fn spec_before_value(s: Seq<char>) -> int {
    spec_digits_val(s.subrange(7, s.len() - 1))
}

/// A `before=<N>d` fragment whose value does not fit the configuration's
/// day counter.
pub open spec fn spec_before_overflows(s: Seq<char>) -> bool {
    spec_is_before_fragment(s) && spec_before_value(s) > u32::MAX
}

/// A `ca=<path>` fragment.
pub open spec fn spec_is_ca_fragment(s: Seq<char>) -> bool {
    s.len() >= 3 && s[0] == 'c' && s[1] == 'a' && s[2] == '='
}

/// The path named by a `ca=<path>` fragment.
pub open spec fn spec_ca_value(s: Seq<char>) -> Seq<char> {
    s.subrange(3, s.len() as int)
}

/// The string holds an `=` somewhere.
pub open spec fn spec_has_eq(s: Seq<char>) -> bool {
    exists|i: int| 0 <= i < s.len() && s[i] == '='
}

/// Some argument is a `before=<N>d` fragment whose value does not fit.
pub open spec fn spec_any_before_overflow(vs: Seq<Seq<char>>) -> bool {
    exists|j: int| 0 <= j < vs.len() && spec_before_overflows(#[trigger] vs[j])
}

/// The day count of the earliest `before=<N>d` fragment at or after `i`
/// that names a non-zero value; 0 when there is none.
pub open spec fn spec_first_before(vs: Seq<Seq<char>>, i: int) -> int
    decreases vs.len() - i,
{
    if i < 0 || i >= vs.len() {
        0
    } else if spec_is_before_fragment(vs[i]) && spec_before_value(vs[i]) != 0 {
        spec_before_value(vs[i])
    } else {
        spec_first_before(vs, i + 1)
    }
}

/// The path of the earliest `ca=<path>` fragment at or after `i` that names
/// a non-empty path; empty when there is none.
pub open spec fn spec_first_ca(vs: Seq<Seq<char>>, i: int) -> Seq<char>
    decreases vs.len() - i,
{
    if i < 0 || i >= vs.len() {
        Seq::empty()
    } else if spec_is_ca_fragment(vs[i]) && spec_ca_value(vs[i]).len() != 0 {
        spec_ca_value(vs[i])
    } else {
        spec_first_ca(vs, i + 1)
    }
}

/// What one argument contributes as a `before=<N>d` fragment.
enum BeforeScan {
    NotFragment,
    Overflow,
    Value(u32),
}

/// Recognize a `before=<N>d` fragment and read its value, reporting a
/// value beyond the day counter's range separately.
#[verifier::loop_isolation(false)]
fn scan_before_fragment(arg: &str) -> (r: BeforeScan)
    ensures
        r is NotFragment <==> !spec_is_before_fragment(arg@),
        r is Overflow <==> spec_before_overflows(arg@),
        r matches BeforeScan::Value(v) ==> v as int == spec_before_value(arg@),
{
    let n = arg.unicode_len();
    if n < 9 {
        return BeforeScan::NotFragment;
    }
    if !(arg.get_char(0) == 'b' && arg.get_char(1) == 'e' && arg.get_char(2) == 'f' && arg.get_char(
        3,
    ) == 'o' && arg.get_char(4) == 'r' && arg.get_char(5) == 'e' && arg.get_char(6) == '=') {
        return BeforeScan::NotFragment;
    }
    if arg.get_char(n - 1) != 'd' {
        return BeforeScan::NotFragment;
    }
    let mut i: usize = 7;
    let mut acc: u64 = 0;
    let mut over: bool = false;
    while i < n - 1
        invariant
            7 <= i <= n - 1,
            forall|j: int| 7 <= j < i ==> is_digit(#[trigger] arg@[j]),
            !over ==> acc as int == spec_digits_val(arg@.subrange(7, i as int)) && acc <= u32::MAX
                as u64,
            over ==> spec_digits_val(arg@.subrange(7, i as int)) > u32::MAX,
        decreases n - 1 - i,
    {
        let c = arg.get_char(i);
        if !is_digit_char(c) {
            return BeforeScan::NotFragment;
        }
        proof {
            assert(arg@.subrange(7, i + 1).drop_last() =~= arg@.subrange(7, i as int));
            assert(arg@.subrange(7, i + 1).last() == arg@[i as int]);
        }
        let d = digit_value(c);
        if !over {
            let next: u64 = acc * 10 + d as u64;
            if next > u32::MAX as u64 {
                over = true;
            } else {
                acc = next;
            }
        }
        i += 1;
    }
    if over {
        BeforeScan::Overflow
    } else {
        BeforeScan::Value(acc as u32)
    }
}

/// Apply a `before=<N>d` fragment to a configuration, setting its day
/// count; any other argument leaves it unchanged.
pub fn retrieve_before(cur_args: Cmd, arg: String) -> (r: Cmd)
    requires
        spec_is_before_fragment(arg@) ==> spec_before_value(arg@) <= u32::MAX,
    ensures
        spec_is_before_fragment(arg@) ==> r.before as int == spec_before_value(arg@) && r.ca
            == cur_args.ca && r.cmd == cur_args.cmd,
        !spec_is_before_fragment(arg@) ==> r == cur_args,
{
    match scan_before_fragment(arg.as_str()) {
        BeforeScan::Value(v) => Cmd { before: v, ca: cur_args.ca, cmd: cur_args.cmd },
        _ => cur_args,
    }
}

/// Apply a `ca=<path>` fragment to a configuration, setting its
/// certificate path; any other argument leaves it unchanged.
pub fn retrieve_ca(cur_args: Cmd, arg: String) -> (r: Cmd)
    ensures
        spec_is_ca_fragment(arg@) ==> r.ca@ == spec_ca_value(arg@) && r.before == cur_args.before
            && r.cmd == cur_args.cmd,
        !spec_is_ca_fragment(arg@) ==> r == cur_args,
{
    let n = arg.as_str().unicode_len();
    if n >= 3 && arg.as_str().get_char(0) == 'c' && arg.as_str().get_char(1) == 'a'
        && arg.as_str().get_char(2) == '=' {
        let rest = arg.as_str().substring_char(3, n);
        Cmd { before: cur_args.before, ca: String::from_str(rest), cmd: cur_args.cmd }
    } else {
        cur_args
    }
}

/// Whether the string holds the character anywhere.
fn contains_char(s: &str, c: char) -> (r: bool)
    ensures
        r <==> (exists|i: int| 0 <= i < s@.len() && s@[i] == c),
{
    let n = s.unicode_len();
    let mut i: usize = 0;
    while i < n
        invariant
            0 <= i <= n,
            n as int == s@.len(),
            forall|j: int| 0 <= j < i ==> s@[j] != c,
        decreases n - i,
    {
        if s.get_char(i) == c {
            return true;
        }
        i += 1;
    }
    false
}

/// Read the command-line arguments into a configuration.
///
/// The last argument must be the command to execute and may not contain
/// `=`; a `before=<N>d` fragment whose value does not fit the day counter
/// is a configuration error; otherwise the fragments are folded first-wins,
/// each field independently.
#[verifier::loop_isolation(false)]
pub fn parse(args: Vec<String>) -> (r: Result<Cmd, String>)
    ensures
        (args@.len() <= 1) <==> (r matches Err(m) && m@
            == "a minimum of one parameter is required"@),
        (args@.len() > 1 && spec_has_eq(args.deep_view().last())) <==> (r matches Err(m) && m@
            == "the last parameters has to be the file to execute"@),
        (args@.len() > 1 && !spec_has_eq(args.deep_view().last()) && spec_any_before_overflow(
            args.deep_view(),
        )) <==> (r matches Err(m) && m@ == "invalid before value"@),
        (args@.len() > 1 && !spec_has_eq(args.deep_view().last()) && !spec_any_before_overflow(
            args.deep_view(),
        )) <==> r is Ok,
        r matches Ok(c) ==> ({
            let vs = args.deep_view();
            &&& c.cmd@ == vs.last()
            &&& c.before as int == spec_first_before(vs, 0)
            &&& c.ca@ == spec_first_ca(vs, 0)
        }),
{
    proof {
        reveal_strlit("a minimum of one parameter is required");
        reveal_strlit("the last parameters has to be the file to execute");
        reveal_strlit("invalid before value");
        assert("a minimum of one parameter is required"@.len() == 38);
        assert("the last parameters has to be the file to execute"@.len() == 49);
        assert("invalid before value"@.len() == 20);
    }
    if args.len() <= 1 {
        return Err(String::from_str("a minimum of one parameter is required"));
    }
    let last: String = args[args.len() - 1].clone();
    assert(last@ == args.deep_view().last());
    if contains_char(last.as_str(), '=') {
        return Err(String::from_str("the last parameters has to be the file to execute"));
    }
    let mut acc = Cmd::new(last);
    let mut i: usize = 0;
    while i < args.len()
        invariant
            0 <= i <= args@.len(),
            forall|j: int| 0 <= j < i ==> !spec_before_overflows(#[trigger] args.deep_view()[j]),
            acc.cmd@ == args.deep_view().last(),
            acc.before != 0 ==> spec_first_before(args.deep_view(), 0) == acc.before as int,
            acc.before == 0 ==> spec_first_before(args.deep_view(), 0) == spec_first_before(
                args.deep_view(),
                i as int,
            ),
            acc.ca@.len() != 0 ==> spec_first_ca(args.deep_view(), 0) == acc.ca@,
            acc.ca@.len() == 0 ==> spec_first_ca(args.deep_view(), 0) == spec_first_ca(
                args.deep_view(),
                i as int,
            ),
        decreases args@.len() - i,
    {
        let arg_ref = &args[i];
        match scan_before_fragment(arg_ref.as_str()) {
            BeforeScan::Overflow => {
                proof {
                    assert(spec_before_overflows(args.deep_view()[i as int]));
                }
                return Err(String::from_str("invalid before value"));
            },
            _ => {},
        }
        let frag0 = Cmd::new(String::new());
        let frag1 = retrieve_before(frag0, arg_ref.clone());
        let frag = retrieve_ca(frag1, arg_ref.clone());
        acc = acc.merge(frag);
        i += 1;
    }
    Ok(acc)
}

} // verus!
