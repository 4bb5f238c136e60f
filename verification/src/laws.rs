//! Library-wide laws, stated and proved over the rendering model.

use vstd::prelude::*;
use vstd::assert_by_contradiction;
use crate::config::ConfigView;
use crate::config::spec_new_config;
use crate::render::after_lines;
use crate::render::dec_digits;
use crate::render::environment_lines;
use crate::render::env_entry;
use crate::render::join_spaces;
use crate::render::log_lines;
use crate::render::opt_line;
use crate::render::restart_sec_lines;
use crate::render::spec_lines;
use crate::render::spec_render;

verus! {

/// Rendering is pure and deterministic: two renderings of the same
/// configuration value are byte-identical, so two calls of `generate` on
/// equal configurations return equal text.
pub proof fn lemma_render_deterministic(a: ConfigView, b: ConfigView)
    requires
        a == b,
    ensures
        spec_render(a) == spec_render(b),
{
}

proof fn lemma_contains_left(a: Seq<Seq<char>>, b: Seq<Seq<char>>, x: Seq<char>)
    requires
        a.contains(x),
    ensures
        (a + b).contains(x),
{
    let j = choose|j: int| 0 <= j < a.len() && a[j] == x;
    assert((a + b)[j] == x);
}

proof fn lemma_contains_right(a: Seq<Seq<char>>, b: Seq<Seq<char>>, x: Seq<char>)
    requires
        b.contains(x),
    ensures
        (a + b).contains(x),
{
    let j = choose|j: int| 0 <= j < b.len() && b[j] == x;
    assert((a + b)[a.len() + j] == x);
}

/// Default-value law: a configuration holding only the three required
/// fields renders with the default restart policy, restart delay and
/// install target, whatever those three fields are.
pub proof fn lemma_defaults_rendered(name: Seq<char>, exec_start: Seq<char>, description: Seq<char>)
    ensures
        spec_lines(spec_new_config(name, exec_start, description)).contains("Restart=always"@),
        spec_lines(spec_new_config(name, exec_start, description)).contains("RestartSec=5"@),
        spec_lines(spec_new_config(name, exec_start, description)).contains(
            "WantedBy=multi-user.target"@,
        ),
{
    let c = spec_new_config(name, exec_start, description);
    reveal_strlit("always");
    reveal_strlit("Restart=");
    reveal_strlit("Restart=always");
    reveal_strlit("RestartSec=");
    reveal_strlit("5");
    reveal_strlit("RestartSec=5");
    reveal_strlit("multi-user.target");
    reveal_strlit("WantedBy=");
    reveal_strlit("WantedBy=multi-user.target");
    assert("Restart="@ + "always"@ =~= "Restart=always"@);
    assert(dec_digits(5nat) =~= seq!['5']);
    assert("RestartSec="@ + dec_digits(5nat) =~= "RestartSec=5"@);
    assert("WantedBy="@ + "multi-user.target"@ =~= "WantedBy=multi-user.target"@);

    let s1 = seq!["[Unit]"@];
    let s2 = seq!["Description="@ + c.description];
    let s3 = after_lines(c.after);
    let s4 = seq![Seq::<char>::empty()];
    let s5 = seq!["[Service]"@];
    let s6 = opt_line("WorkingDirectory="@, c.working_directory);
    let s7 = opt_line("User="@, c.user);
    let s8 = opt_line("Group="@, c.group);
    let s9 = opt_line("Restart="@, c.restart);
    let s10 = restart_sec_lines(c.restart_sec);
    let s11 = seq!["ExecStart="@ + c.exec_start];
    let s12 = log_lines(c.log_file);
    let s13 = environment_lines(c.environment);
    let s14 = seq![Seq::<char>::empty()];
    let s15 = seq!["[Install]"@];
    let s16 = opt_line("WantedBy="@, c.wanted_by);

    assert(s9 == seq!["Restart=always"@]);
    assert(s9.contains("Restart=always"@)) by {
        assert(s9[0] == "Restart=always"@);
    }
    let p8 = s1 + s2 + s3 + s4 + s5 + s6 + s7 + s8;
    lemma_contains_right(p8, s9, "Restart=always"@);
    lemma_contains_left(p8 + s9, s10, "Restart=always"@);
    lemma_contains_left(p8 + s9 + s10, s11, "Restart=always"@);
    lemma_contains_left(p8 + s9 + s10 + s11, s12, "Restart=always"@);
    lemma_contains_left(p8 + s9 + s10 + s11 + s12, s13, "Restart=always"@);
    lemma_contains_left(p8 + s9 + s10 + s11 + s12 + s13, s14, "Restart=always"@);
    lemma_contains_left(p8 + s9 + s10 + s11 + s12 + s13 + s14, s15, "Restart=always"@);
    lemma_contains_left(p8 + s9 + s10 + s11 + s12 + s13 + s14 + s15, s16, "Restart=always"@);

    assert(s10 == seq!["RestartSec=5"@]);
    assert(s10.contains("RestartSec=5"@)) by {
        assert(s10[0] == "RestartSec=5"@);
    }
    lemma_contains_right(p8 + s9, s10, "RestartSec=5"@);
    lemma_contains_left(p8 + s9 + s10, s11, "RestartSec=5"@);
    lemma_contains_left(p8 + s9 + s10 + s11, s12, "RestartSec=5"@);
    lemma_contains_left(p8 + s9 + s10 + s11 + s12, s13, "RestartSec=5"@);
    lemma_contains_left(p8 + s9 + s10 + s11 + s12 + s13, s14, "RestartSec=5"@);
    lemma_contains_left(p8 + s9 + s10 + s11 + s12 + s13 + s14, s15, "RestartSec=5"@);
    lemma_contains_left(p8 + s9 + s10 + s11 + s12 + s13 + s14 + s15, s16, "RestartSec=5"@);

    assert(s16 == seq!["WantedBy=multi-user.target"@]);
    assert(s16.contains("WantedBy=multi-user.target"@)) by {
        assert(s16[0] == "WantedBy=multi-user.target"@);
    }
    lemma_contains_right(p8 + s9 + s10 + s11 + s12 + s13 + s14 + s15, s16,
        "WantedBy=multi-user.target"@);
}

/// Index of the first environment line within the emitted lines.
pub open spec fn env_base(c: ConfigView) -> int {
    (seq!["[Unit]"@]
        + seq!["Description="@ + c.description]
        + after_lines(c.after)
        + seq![Seq::<char>::empty()]
        + seq!["[Service]"@]
        + opt_line("WorkingDirectory="@, c.working_directory)
        + opt_line("User="@, c.user)
        + opt_line("Group="@, c.group)
        + opt_line("Restart="@, c.restart)
        + restart_sec_lines(c.restart_sec)
        + seq!["ExecStart="@ + c.exec_start]
        + log_lines(c.log_file)).len() as int
}

/// Order-preservation law for the environment: the output holds one line
/// per pair, contiguously and in exactly the input order, duplicates kept.
pub proof fn lemma_environment_lines_in_order(c: ConfigView)
    requires
        c.environment is Some,
    ensures
        0 <= env_base(c),
        env_base(c) + c.environment->Some_0.len() <= spec_lines(c).len(),
        forall|j: int| 0 <= j < c.environment->Some_0.len()
            ==> spec_lines(c)[env_base(c) + j] == env_entry(c.environment->Some_0[j]),
{
    let e = c.environment->Some_0;
    let p = seq!["[Unit]"@]
        + seq!["Description="@ + c.description]
        + after_lines(c.after)
        + seq![Seq::<char>::empty()]
        + seq!["[Service]"@]
        + opt_line("WorkingDirectory="@, c.working_directory)
        + opt_line("User="@, c.user)
        + opt_line("Group="@, c.group)
        + opt_line("Restart="@, c.restart)
        + restart_sec_lines(c.restart_sec)
        + seq!["ExecStart="@ + c.exec_start]
        + log_lines(c.log_file);
    let s13 = environment_lines(c.environment);
    let s14 = seq![Seq::<char>::empty()];
    let s15 = seq!["[Install]"@];
    let s16 = opt_line("WantedBy="@, c.wanted_by);
    let base = env_base(c);
    assert(spec_lines(c) == p + s13 + s14 + s15 + s16);
    assert(s13 == e.map_values(|q: (Seq<char>, Seq<char>)| env_entry(q)));
    assert forall|j: int| 0 <= j < e.len()
        implies spec_lines(c)[base + j] == env_entry(e[j]) by {
        assert((p + s13)[base + j] == s13[j]);
        assert((p + s13 + s14)[base + j] == (p + s13)[base + j]);
        assert((p + s13 + s14 + s15)[base + j] == (p + s13 + s14)[base + j]);
        assert((p + s13 + s14 + s15 + s16)[base + j] == (p + s13 + s14 + s15)[base + j]);
        assert(s13[j] == env_entry(e[j]));
    }
}

/// Order-preservation law for dependencies: a non-empty `after` sequence
/// is emitted as one line joining the entries in exactly the input order.
pub proof fn lemma_after_line(c: ConfigView)
    requires
        c.after is Some,
        c.after->Some_0.len() > 0,
    ensures
        spec_lines(c).contains("After="@ + join_spaces(c.after->Some_0)),
{
    let x = "After="@ + join_spaces(c.after->Some_0);
    let s1 = seq!["[Unit]"@];
    let s2 = seq!["Description="@ + c.description];
    let s3 = after_lines(c.after);
    assert(s3 == seq![x]);
    assert(s3.contains(x)) by {
        assert(s3[0] == x);
    }
    lemma_contains_right(s1 + s2, s3, x);
    let mut pre = s1 + s2 + s3;
    lemma_contains_left(pre, seq![Seq::<char>::empty()], x);
    pre = pre + seq![Seq::<char>::empty()];
    lemma_contains_left(pre, seq!["[Service]"@], x);
    pre = pre + seq!["[Service]"@];
    lemma_contains_left(pre, opt_line("WorkingDirectory="@, c.working_directory), x);
    pre = pre + opt_line("WorkingDirectory="@, c.working_directory);
    lemma_contains_left(pre, opt_line("User="@, c.user), x);
    pre = pre + opt_line("User="@, c.user);
    lemma_contains_left(pre, opt_line("Group="@, c.group), x);
    pre = pre + opt_line("Group="@, c.group);
    lemma_contains_left(pre, opt_line("Restart="@, c.restart), x);
    pre = pre + opt_line("Restart="@, c.restart);
    lemma_contains_left(pre, restart_sec_lines(c.restart_sec), x);
    pre = pre + restart_sec_lines(c.restart_sec);
    lemma_contains_left(pre, seq!["ExecStart="@ + c.exec_start], x);
    pre = pre + seq!["ExecStart="@ + c.exec_start];
    lemma_contains_left(pre, log_lines(c.log_file), x);
    pre = pre + log_lines(c.log_file);
    lemma_contains_left(pre, environment_lines(c.environment), x);
    pre = pre + environment_lines(c.environment);
    lemma_contains_left(pre, seq![Seq::<char>::empty()], x);
    pre = pre + seq![Seq::<char>::empty()];
    lemma_contains_left(pre, seq!["[Install]"@], x);
    pre = pre + seq!["[Install]"@];
    lemma_contains_left(pre, opt_line("WantedBy="@, c.wanted_by), x);
    assert(pre + opt_line("WantedBy="@, c.wanted_by) == spec_lines(c));
}

/// Log-file pairing, presence direction: a set log file emits both the
/// append-mode standard-output redirect and the standard-error inherit
/// directive.
pub proof fn lemma_log_lines_present(c: ConfigView)
    requires
        c.log_file is Some,
    ensures
        spec_lines(c).contains("StandardOutput=append:"@ + c.log_file->Some_0),
        spec_lines(c).contains("StandardError=inherit"@),
{
    let x0 = "StandardOutput=append:"@ + c.log_file->Some_0;
    let x1 = "StandardError=inherit"@;
    let p = seq!["[Unit]"@]
        + seq!["Description="@ + c.description]
        + after_lines(c.after)
        + seq![Seq::<char>::empty()]
        + seq!["[Service]"@]
        + opt_line("WorkingDirectory="@, c.working_directory)
        + opt_line("User="@, c.user)
        + opt_line("Group="@, c.group)
        + opt_line("Restart="@, c.restart)
        + restart_sec_lines(c.restart_sec)
        + seq!["ExecStart="@ + c.exec_start];
    let s12 = log_lines(c.log_file);
    assert(s12 == seq![x0, x1]);
    assert(s12.contains(x0)) by {
        assert(s12[0] == x0);
    }
    assert(s12.contains(x1)) by {
        assert(s12[1] == x1);
    }
    lemma_contains_right(p, s12, x0);
    lemma_contains_right(p, s12, x1);
    let mut pre = p + s12;
    lemma_contains_left(pre, environment_lines(c.environment), x0);
    lemma_contains_left(pre, environment_lines(c.environment), x1);
    pre = pre + environment_lines(c.environment);
    lemma_contains_left(pre, seq![Seq::<char>::empty()], x0);
    lemma_contains_left(pre, seq![Seq::<char>::empty()], x1);
    pre = pre + seq![Seq::<char>::empty()];
    lemma_contains_left(pre, seq!["[Install]"@], x0);
    lemma_contains_left(pre, seq!["[Install]"@], x1);
    pre = pre + seq!["[Install]"@];
    lemma_contains_left(pre, opt_line("WantedBy="@, c.wanted_by), x0);
    lemma_contains_left(pre, opt_line("WantedBy="@, c.wanted_by), x1);
    assert(pre + opt_line("WantedBy="@, c.wanted_by) == spec_lines(c));
}

/// `p` is an initial run of `l`.
pub open spec fn line_has_prefix(l: Seq<char>, p: Seq<char>) -> bool {
    p.len() <= l.len() && forall|j: int| 0 <= j < p.len() ==> l[j] == p[j]
}

/// No key of an absent optional field opens the line `l`, and without a
/// log file no line is the standard-error inherit directive.
pub open spec fn absent_fields_unmentioned(c: ConfigView, l: Seq<char>) -> bool {
    &&& (c.working_directory is None ==> !line_has_prefix(l, "WorkingDirectory="@))
    &&& (c.user is None ==> !line_has_prefix(l, "User="@))
    &&& (c.group is None ==> !line_has_prefix(l, "Group="@))
    &&& (c.restart is None ==> !line_has_prefix(l, "Restart="@))
    &&& (c.restart_sec is None ==> !line_has_prefix(l, "RestartSec="@))
    &&& (c.log_file is None ==> !line_has_prefix(l, "StandardOutput="@)
        && !line_has_prefix(l, "StandardError="@) && l != "StandardError=inherit"@)
    &&& (c.environment is None ==> !line_has_prefix(l, "Environment="@))
    &&& (c.after is None || c.after->Some_0.len() == 0 ==> !line_has_prefix(l, "After="@))
    &&& (c.wanted_by is None ==> !line_has_prefix(l, "WantedBy="@))
}

proof fn lemma_contains_split(a: Seq<Seq<char>>, b: Seq<Seq<char>>, x: Seq<char>)
    requires
        (a + b).contains(x),
    ensures
        a.contains(x) || b.contains(x),
{
    let i = choose|i: int| 0 <= i < (a + b).len() && (a + b)[i] == x;
    if i < a.len() {
        assert(a[i] == x);
    } else {
        assert(b[i - a.len()] == x);
    }
}

proof fn lemma_contains_single(x: Seq<char>, y: Seq<char>)
    requires
        seq![x].contains(y),
    ensures
        y == x,
{
    let j = choose|j: int| 0 <= j < seq![x].len() && seq![x][j] == y;
    assert(seq![x][0] == x);
}

proof fn lemma_lit_line_unmentioned(c: ConfigView, l: Seq<char>)
    requires
        l == "[Unit]"@ || l == "[Service]"@ || l == "[Install]"@ || l == Seq::<char>::empty(),
    ensures
        absent_fields_unmentioned(c, l),
{
    reveal_strlit("WorkingDirectory=");
    reveal_strlit("User=");
    reveal_strlit("Group=");
    reveal_strlit("Restart=");
    reveal_strlit("RestartSec=");
    reveal_strlit("StandardOutput=");
    reveal_strlit("StandardError=");
    reveal_strlit("StandardError=inherit");
    reveal_strlit("Environment=");
    reveal_strlit("After=");
    reveal_strlit("WantedBy=");
    reveal_strlit("[Unit]");
    reveal_strlit("[Service]");
    reveal_strlit("[Install]");
    if l == "[Unit]"@ {
        assert(l[0] == '[');
        assert(l.len() == 6);
        assert("StandardError=inherit"@.len() == 21);
    } else if l == "[Service]"@ {
        assert(l[0] == '[');
        assert(l.len() == 9);
        assert("StandardError=inherit"@.len() == 21);
    } else if l == "[Install]"@ {
        assert(l[0] == '[');
        assert(l.len() == 9);
        assert("StandardError=inherit"@.len() == 21);
    } else {
        assert(l.len() == 0);
        assert("StandardError=inherit"@.len() == 21);
    }
}

proof fn lemma_desc_line_unmentioned(c: ConfigView, l: Seq<char>)
    requires
        l == "Description="@ + c.description,
    ensures
        absent_fields_unmentioned(c, l),
{
    reveal_strlit("WorkingDirectory=");
    reveal_strlit("User=");
    reveal_strlit("Group=");
    reveal_strlit("Restart=");
    reveal_strlit("RestartSec=");
    reveal_strlit("StandardOutput=");
    reveal_strlit("StandardError=");
    reveal_strlit("StandardError=inherit");
    reveal_strlit("Environment=");
    reveal_strlit("After=");
    reveal_strlit("WantedBy=");
    reveal_strlit("Description=");
    assert(l[0] == 'D');
    assert_by_contradiction!(l != "StandardError=inherit"@, {
        assert(l[0] == 'D');
        assert(l[0] == 'S');
    });
}

proof fn lemma_after_line_unmentioned(c: ConfigView, l: Seq<char>)
    requires
        c.after is Some,
        c.after->Some_0.len() > 0,
        l == "After="@ + join_spaces(c.after->Some_0),
    ensures
        absent_fields_unmentioned(c, l),
{
    reveal_strlit("WorkingDirectory=");
    reveal_strlit("User=");
    reveal_strlit("Group=");
    reveal_strlit("Restart=");
    reveal_strlit("RestartSec=");
    reveal_strlit("StandardOutput=");
    reveal_strlit("StandardError=");
    reveal_strlit("StandardError=inherit");
    reveal_strlit("Environment=");
    reveal_strlit("After=");
    reveal_strlit("WantedBy=");
    assert(l[0] == 'A');
    assert_by_contradiction!(l != "StandardError=inherit"@, {
        assert(l[0] == 'A');
        assert(l[0] == 'S');
    });
}

proof fn lemma_wd_line_unmentioned(c: ConfigView, l: Seq<char>)
    requires
        c.working_directory is Some,
        l == "WorkingDirectory="@ + c.working_directory->Some_0,
    ensures
        absent_fields_unmentioned(c, l),
{
    reveal_strlit("WorkingDirectory=");
    reveal_strlit("User=");
    reveal_strlit("Group=");
    reveal_strlit("Restart=");
    reveal_strlit("RestartSec=");
    reveal_strlit("StandardOutput=");
    reveal_strlit("StandardError=");
    reveal_strlit("StandardError=inherit");
    reveal_strlit("Environment=");
    reveal_strlit("After=");
    reveal_strlit("WantedBy=");
    assert(l[0] == 'W');
    assert(l[1] == 'o');
    assert_by_contradiction!(l != "StandardError=inherit"@, {
        assert(l[0] == 'W');
        assert(l[0] == 'S');
    });
}

proof fn lemma_user_line_unmentioned(c: ConfigView, l: Seq<char>)
    requires
        c.user is Some,
        l == "User="@ + c.user->Some_0,
    ensures
        absent_fields_unmentioned(c, l),
{
    reveal_strlit("WorkingDirectory=");
    reveal_strlit("User=");
    reveal_strlit("Group=");
    reveal_strlit("Restart=");
    reveal_strlit("RestartSec=");
    reveal_strlit("StandardOutput=");
    reveal_strlit("StandardError=");
    reveal_strlit("StandardError=inherit");
    reveal_strlit("Environment=");
    reveal_strlit("After=");
    reveal_strlit("WantedBy=");
    assert(l[0] == 'U');
    assert_by_contradiction!(l != "StandardError=inherit"@, {
        assert(l[0] == 'U');
        assert(l[0] == 'S');
    });
}

proof fn lemma_group_line_unmentioned(c: ConfigView, l: Seq<char>)
    requires
        c.group is Some,
        l == "Group="@ + c.group->Some_0,
    ensures
        absent_fields_unmentioned(c, l),
{
    reveal_strlit("WorkingDirectory=");
    reveal_strlit("User=");
    reveal_strlit("Group=");
    reveal_strlit("Restart=");
    reveal_strlit("RestartSec=");
    reveal_strlit("StandardOutput=");
    reveal_strlit("StandardError=");
    reveal_strlit("StandardError=inherit");
    reveal_strlit("Environment=");
    reveal_strlit("After=");
    reveal_strlit("WantedBy=");
    assert(l[0] == 'G');
    assert_by_contradiction!(l != "StandardError=inherit"@, {
        assert(l[0] == 'G');
        assert(l[0] == 'S');
    });
}

proof fn lemma_restart_line_unmentioned(c: ConfigView, l: Seq<char>)
    requires
        c.restart is Some,
        l == "Restart="@ + c.restart->Some_0,
    ensures
        absent_fields_unmentioned(c, l),
{
    reveal_strlit("WorkingDirectory=");
    reveal_strlit("User=");
    reveal_strlit("Group=");
    reveal_strlit("Restart=");
    reveal_strlit("RestartSec=");
    reveal_strlit("StandardOutput=");
    reveal_strlit("StandardError=");
    reveal_strlit("StandardError=inherit");
    reveal_strlit("Environment=");
    reveal_strlit("After=");
    reveal_strlit("WantedBy=");
    assert(l[0] == 'R');
    assert(l[7] == '=');
    assert_by_contradiction!(l != "StandardError=inherit"@, {
        assert(l[0] == 'R');
        assert(l[0] == 'S');
    });
}

proof fn lemma_restart_sec_line_unmentioned(c: ConfigView, l: Seq<char>)
    requires
        c.restart_sec is Some,
        l == "RestartSec="@ + dec_digits(c.restart_sec->Some_0 as nat),
    ensures
        absent_fields_unmentioned(c, l),
{
    reveal_strlit("WorkingDirectory=");
    reveal_strlit("User=");
    reveal_strlit("Group=");
    reveal_strlit("Restart=");
    reveal_strlit("RestartSec=");
    reveal_strlit("StandardOutput=");
    reveal_strlit("StandardError=");
    reveal_strlit("StandardError=inherit");
    reveal_strlit("Environment=");
    reveal_strlit("After=");
    reveal_strlit("WantedBy=");
    assert(l[0] == 'R');
    assert(l[7] == 'S');
    assert_by_contradiction!(l != "StandardError=inherit"@, {
        assert(l[0] == 'R');
        assert(l[0] == 'S');
    });
}

proof fn lemma_exec_line_unmentioned(c: ConfigView, l: Seq<char>)
    requires
        l == "ExecStart="@ + c.exec_start,
    ensures
        absent_fields_unmentioned(c, l),
{
    reveal_strlit("WorkingDirectory=");
    reveal_strlit("User=");
    reveal_strlit("Group=");
    reveal_strlit("Restart=");
    reveal_strlit("RestartSec=");
    reveal_strlit("StandardOutput=");
    reveal_strlit("StandardError=");
    reveal_strlit("StandardError=inherit");
    reveal_strlit("Environment=");
    reveal_strlit("After=");
    reveal_strlit("WantedBy=");
    reveal_strlit("ExecStart=");
    assert(l[0] == 'E');
    assert(l[1] == 'x');
    assert_by_contradiction!(l != "StandardError=inherit"@, {
        assert(l[0] == 'E');
        assert(l[0] == 'S');
    });
}

proof fn lemma_so_line_unmentioned(c: ConfigView, l: Seq<char>)
    requires
        c.log_file is Some,
        l == "StandardOutput=append:"@ + c.log_file->Some_0,
    ensures
        absent_fields_unmentioned(c, l),
{
    reveal_strlit("WorkingDirectory=");
    reveal_strlit("User=");
    reveal_strlit("Group=");
    reveal_strlit("Restart=");
    reveal_strlit("RestartSec=");
    reveal_strlit("StandardOutput=");
    reveal_strlit("StandardError=");
    reveal_strlit("StandardError=inherit");
    reveal_strlit("Environment=");
    reveal_strlit("After=");
    reveal_strlit("WantedBy=");
    reveal_strlit("StandardOutput=append:");
    assert(l[0] == 'S');
}

proof fn lemma_se_line_unmentioned(c: ConfigView, l: Seq<char>)
    requires
        c.log_file is Some,
        l == "StandardError=inherit"@,
    ensures
        absent_fields_unmentioned(c, l),
{
    reveal_strlit("WorkingDirectory=");
    reveal_strlit("User=");
    reveal_strlit("Group=");
    reveal_strlit("Restart=");
    reveal_strlit("RestartSec=");
    reveal_strlit("StandardOutput=");
    reveal_strlit("StandardError=");
    reveal_strlit("StandardError=inherit");
    reveal_strlit("Environment=");
    reveal_strlit("After=");
    reveal_strlit("WantedBy=");
    assert(l[0] == 'S');
    assert(l[8] == 'E');
}

proof fn lemma_env_line_unmentioned(c: ConfigView, l: Seq<char>, j: int)
    requires
        c.environment is Some,
        0 <= j < c.environment->Some_0.len(),
        l == env_entry(c.environment->Some_0[j]),
    ensures
        absent_fields_unmentioned(c, l),
{
    reveal_strlit("WorkingDirectory=");
    reveal_strlit("User=");
    reveal_strlit("Group=");
    reveal_strlit("Restart=");
    reveal_strlit("RestartSec=");
    reveal_strlit("StandardOutput=");
    reveal_strlit("StandardError=");
    reveal_strlit("StandardError=inherit");
    reveal_strlit("Environment=");
    reveal_strlit("After=");
    reveal_strlit("WantedBy=");
    reveal_strlit("Environment=\"");
    let q = c.environment->Some_0[j];
    assert(l =~= "Environment=\""@ + (q.0 + "="@ + q.1 + "\""@));
    assert(l[0] == 'E');
    assert(l[1] == 'n');
    assert_by_contradiction!(l != "StandardError=inherit"@, {
        assert(l[0] == 'E');
        assert(l[0] == 'S');
    });
}

proof fn lemma_wanted_line_unmentioned(c: ConfigView, l: Seq<char>)
    requires
        c.wanted_by is Some,
        l == "WantedBy="@ + c.wanted_by->Some_0,
    ensures
        absent_fields_unmentioned(c, l),
{
    reveal_strlit("WorkingDirectory=");
    reveal_strlit("User=");
    reveal_strlit("Group=");
    reveal_strlit("Restart=");
    reveal_strlit("RestartSec=");
    reveal_strlit("StandardOutput=");
    reveal_strlit("StandardError=");
    reveal_strlit("StandardError=inherit");
    reveal_strlit("Environment=");
    reveal_strlit("After=");
    reveal_strlit("WantedBy=");
    assert(l[0] == 'W');
    assert(l[1] == 'a');
    assert_by_contradiction!(l != "StandardError=inherit"@, {
        assert(l[0] == 'W');
        assert(l[0] == 'S');
    });
}

/// Only-present-fields law, per line: whatever line the builder emits, it
/// never opens with the key of an absent optional field (each emitted
/// record is one output line whenever the configured texts hold no
/// newline), and without a log file no emitted line is the standard-error
/// inherit directive.
pub proof fn lemma_line_unmentioned(c: ConfigView, l: Seq<char>)
    requires
        spec_lines(c).contains(l),
    ensures
        absent_fields_unmentioned(c, l),
{
    let s1 = seq!["[Unit]"@];
    let s2 = seq!["Description="@ + c.description];
    let s3 = after_lines(c.after);
    let s4 = seq![Seq::<char>::empty()];
    let s5 = seq!["[Service]"@];
    let s6 = opt_line("WorkingDirectory="@, c.working_directory);
    let s7 = opt_line("User="@, c.user);
    let s8 = opt_line("Group="@, c.group);
    let s9 = opt_line("Restart="@, c.restart);
    let s10 = restart_sec_lines(c.restart_sec);
    let s11 = seq!["ExecStart="@ + c.exec_start];
    let s12 = log_lines(c.log_file);
    let s13 = environment_lines(c.environment);
    let s14 = seq![Seq::<char>::empty()];
    let s15 = seq!["[Install]"@];
    let s16 = opt_line("WantedBy="@, c.wanted_by);
    let p1 = s1;
    let p2 = p1 + s2;
    let p3 = p2 + s3;
    let p4 = p3 + s4;
    let p5 = p4 + s5;
    let p6 = p5 + s6;
    let p7 = p6 + s7;
    let p8 = p7 + s8;
    let p9 = p8 + s9;
    let p10 = p9 + s10;
    let p11 = p10 + s11;
    let p12 = p11 + s12;
    let p13 = p12 + s13;
    let p14 = p13 + s14;
    let p15 = p14 + s15;
    assert(spec_lines(c) == p15 + s16);
    lemma_contains_split(p15, s16, l);
    if p15.contains(l) { lemma_contains_split(p14, s15, l); }
    if p14.contains(l) { lemma_contains_split(p13, s14, l); }
    if p13.contains(l) { lemma_contains_split(p12, s13, l); }
    if p12.contains(l) { lemma_contains_split(p11, s12, l); }
    if p11.contains(l) { lemma_contains_split(p10, s11, l); }
    if p10.contains(l) { lemma_contains_split(p9, s10, l); }
    if p9.contains(l) { lemma_contains_split(p8, s9, l); }
    if p8.contains(l) { lemma_contains_split(p7, s8, l); }
    if p7.contains(l) { lemma_contains_split(p6, s7, l); }
    if p6.contains(l) { lemma_contains_split(p5, s6, l); }
    if p5.contains(l) { lemma_contains_split(p4, s5, l); }
    if p4.contains(l) { lemma_contains_split(p3, s4, l); }
    if p3.contains(l) { lemma_contains_split(p2, s3, l); }
    if p2.contains(l) { lemma_contains_split(p1, s2, l); }

    if s1.contains(l) {
        lemma_contains_single("[Unit]"@, l);
        lemma_lit_line_unmentioned(c, l);
    }
    if s2.contains(l) {
        lemma_contains_single("Description="@ + c.description, l);
        lemma_desc_line_unmentioned(c, l);
    }
    if s3.contains(l) {
        match c.after {
            Some(a) => {
                if a.len() == 0 {
                    assert(false);
                } else {
                    lemma_contains_single("After="@ + join_spaces(a), l);
                    lemma_after_line_unmentioned(c, l);
                }
            },
            None => {
                assert(false);
            },
        }
    }
    if s4.contains(l) {
        lemma_contains_single(Seq::<char>::empty(), l);
        lemma_lit_line_unmentioned(c, l);
    }
    if s5.contains(l) {
        lemma_contains_single("[Service]"@, l);
        lemma_lit_line_unmentioned(c, l);
    }
    if s6.contains(l) {
        match c.working_directory {
            Some(v) => {
                lemma_contains_single("WorkingDirectory="@ + v, l);
                lemma_wd_line_unmentioned(c, l);
            },
            None => {
                assert(false);
            },
        }
    }
    if s7.contains(l) {
        match c.user {
            Some(v) => {
                lemma_contains_single("User="@ + v, l);
                lemma_user_line_unmentioned(c, l);
            },
            None => {
                assert(false);
            },
        }
    }
    if s8.contains(l) {
        match c.group {
            Some(v) => {
                lemma_contains_single("Group="@ + v, l);
                lemma_group_line_unmentioned(c, l);
            },
            None => {
                assert(false);
            },
        }
    }
    if s9.contains(l) {
        match c.restart {
            Some(v) => {
                lemma_contains_single("Restart="@ + v, l);
                lemma_restart_line_unmentioned(c, l);
            },
            None => {
                assert(false);
            },
        }
    }
    if s10.contains(l) {
        match c.restart_sec {
            Some(v) => {
                lemma_contains_single("RestartSec="@ + dec_digits(v as nat), l);
                lemma_restart_sec_line_unmentioned(c, l);
            },
            None => {
                assert(false);
            },
        }
    }
    if s11.contains(l) {
        lemma_contains_single("ExecStart="@ + c.exec_start, l);
        lemma_exec_line_unmentioned(c, l);
    }
    if s12.contains(l) {
        match c.log_file {
            Some(v) => {
                let j = choose|j: int| 0 <= j < s12.len() && s12[j] == l;
                if j == 0 {
                    assert(l == "StandardOutput=append:"@ + v);
                    lemma_so_line_unmentioned(c, l);
                } else {
                    assert(l == "StandardError=inherit"@);
                    lemma_se_line_unmentioned(c, l);
                }
            },
            None => {
                assert(false);
            },
        }
    }
    if s13.contains(l) {
        match c.environment {
            Some(e) => {
                let j = choose|j: int| 0 <= j < s13.len() && s13[j] == l;
                assert(s13[j] == env_entry(e[j]));
                lemma_env_line_unmentioned(c, l, j);
            },
            None => {
                assert(false);
            },
        }
    }
    if s14.contains(l) {
        lemma_contains_single(Seq::<char>::empty(), l);
        lemma_lit_line_unmentioned(c, l);
    }
    if s15.contains(l) {
        lemma_contains_single("[Install]"@, l);
        lemma_lit_line_unmentioned(c, l);
    }
    if s16.contains(l) {
        match c.wanted_by {
            Some(v) => {
                lemma_contains_single("WantedBy="@ + v, l);
                lemma_wanted_line_unmentioned(c, l);
            },
            None => {
                assert(false);
            },
        }
    }
}

/// Only-present-fields law: no line of the rendered output opens with the
/// key of an absent optional field.
pub proof fn lemma_absent_fields_never_rendered(c: ConfigView)
    ensures
        forall|i: int| 0 <= i < spec_lines(c).len()
            ==> absent_fields_unmentioned(c, #[trigger] spec_lines(c)[i]),
{
    assert forall|i: int| 0 <= i < spec_lines(c).len()
        implies absent_fields_unmentioned(c, spec_lines(c)[i]) by {
        assert(spec_lines(c).contains(spec_lines(c)[i]));
        lemma_line_unmentioned(c, spec_lines(c)[i]);
    }
}

/// Log-file pairing law: the output carries the standard-error inherit
/// directive as a line exactly when a log file is set.
pub proof fn lemma_log_file_pairing(c: ConfigView)
    ensures
        c.log_file is Some <==> spec_lines(c).contains("StandardError=inherit"@),
{
    if c.log_file is Some {
        lemma_log_lines_present(c);
    }
    if c.log_file is None && spec_lines(c).contains("StandardError=inherit"@) {
        lemma_line_unmentioned(c, "StandardError=inherit"@);
        assert(false);
    }
}

} // verus!
