//! The rendering model: what unit-file text a configuration produces.
//!
//! The text is modelled as a sequence of emitted lines ([`spec_lines`])
//! flattened with one newline after each line ([`unlines`]). Executable
//! helpers here append verified pieces to a growing `String`.

use vstd::prelude::*;
use vstd::string::StringExecFns;
use crate::config::ConfigView;
use crate::config::view_opt_string;
use crate::config::view_after;
use crate::config::view_env;

verus! {

/// Joins entries with single spaces, preserving order; no sorting, no
/// de-duplication.
pub open spec fn join_spaces(items: Seq<Seq<char>>) -> Seq<char>
    decreases items.len(),
{
    if items.len() == 0 {
        Seq::<char>::empty()
    } else if items.len() == 1 {
        items[0]
    } else {
        join_spaces(items.drop_last()) + " "@ + items.last()
    }
}

/// The decimal digit characters of `n`, most significant first.
pub open spec fn dec_digits(n: nat) -> Seq<char>
    decreases n,
{
    if n < 10 {
        seq![dec_digit(n)]
    } else {
        dec_digits(n / 10).push(dec_digit(n % 10))
    }
}

/// The character for one decimal digit.
pub open spec fn dec_digit(d: nat) -> char {
    if d == 0 { '0' }
    else if d == 1 { '1' }
    else if d == 2 { '2' }
    else if d == 3 { '3' }
    else if d == 4 { '4' }
    else if d == 5 { '5' }
    else if d == 6 { '6' }
    else if d == 7 { '7' }
    else if d == 8 { '8' }
    else if d == 9 { '9' }
    else { '?' }
}

/// One quoted environment assignment line.
pub open spec fn env_entry(p: (Seq<char>, Seq<char>)) -> Seq<char> {
    "Environment=\""@ + p.0 + "="@ + p.1 + "\""@
}

/// The environment lines, one per pair, in input order.
pub open spec fn env_lines_of(e: Seq<(Seq<char>, Seq<char>)>) -> Seq<Seq<char>> {
    e.map_values(|p: (Seq<char>, Seq<char>)| env_entry(p))
}

/// A key-prefixed line when the field is present, nothing when absent.
pub open spec fn opt_line(key: Seq<char>, v: Option<Seq<char>>) -> Seq<Seq<char>> {
    match v {
        Some(s) => seq![key + s],
        None => Seq::<Seq<char>>::empty(),
    }
}

/// The dependency line: present only for a non-empty `after` sequence.
pub open spec fn after_lines(a: Option<Seq<Seq<char>>>) -> Seq<Seq<char>> {
    match a {
        Some(s) => if s.len() == 0 {
            Seq::<Seq<char>>::empty()
        } else {
            seq!["After="@ + join_spaces(s)]
        },
        None => Seq::<Seq<char>>::empty(),
    }
}

/// The restart-delay line when a delay is set.
pub open spec fn restart_sec_lines(v: Option<u32>) -> Seq<Seq<char>> {
    match v {
        Some(n) => seq!["RestartSec="@ + dec_digits(n as nat)],
        None => Seq::<Seq<char>>::empty(),
    }
}

/// The output-redirection pair: an append-mode standard-output line always
/// paired with a standard-error inherit line, only when a log file is set.
pub open spec fn log_lines(v: Option<Seq<char>>) -> Seq<Seq<char>> {
    match v {
        Some(p) => seq!["StandardOutput=append:"@ + p, "StandardError=inherit"@],
        None => Seq::<Seq<char>>::empty(),
    }
}

/// The environment lines when pairs are set.
pub open spec fn environment_lines(e: Option<Seq<(Seq<char>, Seq<char>)>>) -> Seq<Seq<char>> {
    match e {
        Some(s) => env_lines_of(s),
        None => Seq::<Seq<char>>::empty(),
    }
}

/// Every line the builder emits for `c`, in emission order: the unit
/// metadata section, a blank separator, the execution section, a blank
/// separator, and the installation section.
pub open spec fn spec_lines(c: ConfigView) -> Seq<Seq<char>> {
    seq!["[Unit]"@]
        + seq!["Description="@ + c.description]
        + after_lines(c.after)
        + seq![Seq::<char>::empty()]
        + seq!["[Service]"@]
        + opt_line("WorkingDirectory="@, c.working_directory)
        + opt_line("User="@, c.user)
        + opt_line("Group="@, c.group)
        + opt_line("Restart="@, c.restart)
        + restart_sec_lines(c.restart_sec)
        + seq!["ExecStart="@ + c.exec_start]
        + log_lines(c.log_file)
        + environment_lines(c.environment)
        + seq![Seq::<char>::empty()]
        + seq!["[Install]"@]
        + opt_line("WantedBy="@, c.wanted_by)
}

/// Flattens a sequence of lines to text, one newline after each line.
pub open spec fn unlines(lines: Seq<Seq<char>>) -> Seq<char>
    decreases lines.len(),
{
    if lines.len() == 0 {
        Seq::<char>::empty()
    } else {
        lines[0] + "\n"@ + unlines(lines.drop_first())
    }
}

/// The full unit-file text for a configuration.
pub open spec fn spec_render(c: ConfigView) -> Seq<char> {
    unlines(spec_lines(c))
}

/// Flattening distributes over concatenation of line sequences.
pub proof fn lemma_unlines_append(a: Seq<Seq<char>>, b: Seq<Seq<char>>)
    ensures
        unlines(a + b) == unlines(a) + unlines(b),
    decreases a.len(),
{
    if a.len() == 0 {
        assert(a + b =~= b);
        assert(unlines(a) + unlines(b) =~= unlines(b));
    } else {
        assert((a + b).drop_first() =~= a.drop_first() + b);
        lemma_unlines_append(a.drop_first(), b);
        assert((a + b)[0] == a[0]);
        assert(unlines(a + b) =~= unlines(a) + unlines(b));
    }
}

/// Flattening a single line yields the line and a newline.
pub proof fn lemma_unlines_one(l: Seq<char>)
    ensures
        unlines(seq![l]) == l + "\n"@,
{
    let one = seq![l];
    assert(one.drop_first() =~= Seq::<Seq<char>>::empty());
    reveal_with_fuel(unlines, 2);
    assert(unlines(one) =~= l + "\n"@);
}

/// Flattening one more line appends that line and a newline.
pub proof fn lemma_unlines_push(a: Seq<Seq<char>>, l: Seq<char>)
    ensures
        unlines(a.push(l)) == unlines(a) + l + "\n"@,
{
    let one = seq![l];
    assert(a.push(l) =~= a + one);
    lemma_unlines_append(a, one);
    lemma_unlines_one(l);
    assert(unlines(a) + unlines(one) =~= unlines(a) + l + "\n"@);
}

/// One decimal digit as text.
fn digit_str(d: u32) -> (r: &'static str)
    requires
        d < 10,
    ensures
        r@ == seq![dec_digit(d as nat)],
{
    let r = if d == 0 { "0" }
    else if d == 1 { "1" }
    else if d == 2 { "2" }
    else if d == 3 { "3" }
    else if d == 4 { "4" }
    else if d == 5 { "5" }
    else if d == 6 { "6" }
    else if d == 7 { "7" }
    else if d == 8 { "8" }
    else { "9" };
    proof {
        reveal_strlit("0");
        reveal_strlit("1");
        reveal_strlit("2");
        reveal_strlit("3");
        reveal_strlit("4");
        reveal_strlit("5");
        reveal_strlit("6");
        reveal_strlit("7");
        reveal_strlit("8");
        reveal_strlit("9");
    }
    r
}

/// Appends the decimal rendering of `n`.
pub fn push_decimal(s: &mut String, n: u32)
    ensures
        final(s)@ == old(s)@ + dec_digits(n as nat),
    decreases n,
{
    if n < 10 {
        s.append(digit_str(n));
    } else {
        push_decimal(s, n / 10);
        s.append(digit_str(n % 10));
        assert(old(s)@ + dec_digits((n / 10) as nat) + seq![dec_digit((n % 10) as nat)]
            =~= old(s)@ + dec_digits(n as nat));
    }
}

/// Appends the entries joined by single spaces, in order.
pub fn push_joined(s: &mut String, items: &Vec<String>)
    ensures
        final(s)@ == old(s)@ + join_spaces(items@.map_values(|x: String| x@)),
{
    let ghost iv = items@.map_values(|x: String| x@);
    let mut i: usize = 0;
    while i < items.len()
        invariant
            0 <= i <= items.len(),
            iv == items@.map_values(|x: String| x@),
            s@ == old(s)@ + join_spaces(iv.take(i as int)),
        decreases items.len() - i,
    {
        if i > 0 {
            s.append(" ");
        }
        s.append(items[i].as_str());
        proof {
            let t = iv.take(i + 1 as int);
            if i == 0 {
                assert(join_spaces(iv.take(0int)) =~= Seq::<char>::empty());
                assert(t[0] == iv[0]);
                assert(join_spaces(t) == iv[0]);
                assert(old(s)@ + Seq::<char>::empty() + iv[0] =~= old(s)@ + join_spaces(t));
            } else {
                assert(t.drop_last() =~= iv.take(i as int));
                assert(t.last() == iv[i as int]);
                assert(join_spaces(t) == join_spaces(iv.take(i as int)) + " "@ + iv[i as int]);
                assert(old(s)@ + join_spaces(iv.take(i as int)) + " "@ + iv[i as int]
                    =~= old(s)@ + join_spaces(t));
            }
        }
        i = i + 1;
    }
    proof {
        assert(iv.take(items@.len() as int) =~= iv);
    }
}

/// Appends one environment line (with its newline) per pair, in order.
pub fn push_environment(s: &mut String, env: &Vec<(String, String)>)
    ensures
        final(s)@ == old(s)@
            + unlines(env_lines_of(env@.map_values(|p: (String, String)| (p.0@, p.1@)))),
{
    let ghost ev = env@.map_values(|p: (String, String)| (p.0@, p.1@));
    let mut i: usize = 0;
    while i < env.len()
        invariant
            0 <= i <= env.len(),
            ev == env@.map_values(|p: (String, String)| (p.0@, p.1@)),
            s@ == old(s)@ + unlines(env_lines_of(ev.take(i as int))),
        decreases env.len() - i,
    {
        s.append("Environment=\"");
        s.append(env[i].0.as_str());
        s.append("=");
        s.append(env[i].1.as_str());
        s.append("\"");
        s.append("\n");
        proof {
            let lines_i = env_lines_of(ev.take(i as int));
            let lines_n = env_lines_of(ev.take(i + 1 as int));
            assert(lines_n =~= lines_i.push(env_entry(ev[i as int])));
            lemma_unlines_push(lines_i, env_entry(ev[i as int]));
            assert(ev[i as int] == (env@[i as int].0@, env@[i as int].1@));
            assert(old(s)@ + unlines(lines_i) + "Environment=\""@ + env@[i as int].0@ + "="@
                + env@[i as int].1@ + "\""@ + "\n"@
                =~= old(s)@ + unlines(lines_n));
        }
        i = i + 1;
    }
    proof {
        assert(ev.take(env@.len() as int) =~= ev);
    }
}

/// Appends one fixed line and its newline.
pub fn push_lit_line(s: &mut String, lit: &str)
    ensures
        final(s)@ == old(s)@ + unlines(seq![lit@]),
{
    s.append(lit);
    s.append("\n");
    proof {
        lemma_unlines_one(lit@);
        assert(old(s)@ + lit@ + "\n"@ =~= old(s)@ + unlines(seq![lit@]));
    }
}

/// Appends one blank separator line.
pub fn push_blank_line(s: &mut String)
    ensures
        final(s)@ == old(s)@ + unlines(seq![Seq::<char>::empty()]),
{
    s.append("\n");
    proof {
        lemma_unlines_one(Seq::<char>::empty());
        assert(old(s)@ + "\n"@ =~= old(s)@ + unlines(seq![Seq::<char>::empty()]));
    }
}

/// Appends one `key` + `value` line and its newline.
pub fn push_kv_line(s: &mut String, key: &str, value: &str)
    ensures
        final(s)@ == old(s)@ + unlines(seq![key@ + value@]),
{
    s.append(key);
    s.append(value);
    s.append("\n");
    proof {
        lemma_unlines_one(key@ + value@);
        assert(old(s)@ + key@ + value@ + "\n"@ =~= old(s)@ + unlines(seq![key@ + value@]));
    }
}

/// Appends the line for an optional field, or nothing when it is absent.
pub fn push_opt_line(s: &mut String, key: &str, v: &Option<String>)
    ensures
        final(s)@ == old(s)@ + unlines(opt_line(key@, view_opt_string(*v))),
{
    match v {
        Some(value) => {
            push_kv_line(s, key, value.as_str());
        },
        None => {
            proof {
                assert(old(s)@ + unlines(opt_line(key@, view_opt_string(*v))) =~= old(s)@);
            }
        },
    }
}

/// Appends the dependency line for a non-empty `after` sequence.
pub fn push_after_lines(s: &mut String, a: &Option<Vec<String>>)
    ensures
        final(s)@ == old(s)@ + unlines(after_lines(view_after(*a))),
{
    match a {
        Some(after) => {
            if after.len() > 0 {
                s.append("After=");
                push_joined(s, after);
                s.append("\n");
                proof {
                    let line = "After="@ + join_spaces(after@.map_values(|x: String| x@));
                    lemma_unlines_one(line);
                    assert(old(s)@ + "After="@ + join_spaces(after@.map_values(|x: String| x@))
                        + "\n"@ =~= old(s)@ + unlines(after_lines(view_after(*a))));
                }
            } else {
                proof {
                    assert(old(s)@ + unlines(after_lines(view_after(*a))) =~= old(s)@);
                }
            }
        },
        None => {
            proof {
                assert(old(s)@ + unlines(after_lines(view_after(*a))) =~= old(s)@);
            }
        },
    }
}

/// Appends the restart-delay line when a delay is set.
pub fn push_restart_sec_lines(s: &mut String, v: Option<u32>)
    ensures
        final(s)@ == old(s)@ + unlines(restart_sec_lines(v)),
{
    match v {
        Some(n) => {
            s.append("RestartSec=");
            push_decimal(s, n);
            s.append("\n");
            proof {
                lemma_unlines_one("RestartSec="@ + dec_digits(n as nat));
                assert(old(s)@ + "RestartSec="@ + dec_digits(n as nat) + "\n"@
                    =~= old(s)@ + unlines(restart_sec_lines(v)));
            }
        },
        None => {
            proof {
                assert(old(s)@ + unlines(restart_sec_lines(v)) =~= old(s)@);
            }
        },
    }
}

/// Appends the standard-output redirect paired with the standard-error
/// inherit directive when a log file is set.
pub fn push_log_lines(s: &mut String, v: &Option<String>)
    ensures
        final(s)@ == old(s)@ + unlines(log_lines(view_opt_string(*v))),
{
    match v {
        Some(p) => {
            push_kv_line(s, "StandardOutput=append:", p.as_str());
            push_lit_line(s, "StandardError=inherit");
            proof {
                let l0 = "StandardOutput=append:"@ + p@;
                let l1 = "StandardError=inherit"@;
                assert(seq![l0].push(l1) =~= seq![l0, l1]);
                lemma_unlines_push(seq![l0], l1);
                lemma_unlines_one(l1);
                assert(old(s)@ + unlines(seq![l0]) + unlines(seq![l1])
                    =~= old(s)@ + unlines(log_lines(view_opt_string(*v))));
            }
        },
        None => {
            proof {
                assert(old(s)@ + unlines(log_lines(view_opt_string(*v))) =~= old(s)@);
            }
        },
    }
}

/// Appends every environment line when pairs are set.
pub fn push_env_lines(s: &mut String, e: &Option<Vec<(String, String)>>)
    ensures
        final(s)@ == old(s)@ + unlines(environment_lines(view_env(*e))),
{
    match e {
        Some(env) => {
            push_environment(s, env);
        },
        None => {
            proof {
                assert(old(s)@ + unlines(environment_lines(view_env(*e))) =~= old(s)@);
            }
        },
    }
}

} // verus!
