//! Deterministic generation of the unit-description text systemd consumes:
//! a `[Unit]` block, a `[Service]` block, and — only when the service is
//! registered for automatic start — an `[Install]` block.

use vstd::prelude::*;
use crate::config::{spec_restart_str, SystemdInstallConfig, SystemdServiceRestartType};
use crate::context::ServiceInstallCtx;
use crate::text::{
    concat2, join_strings, join_with, push_decimal_u32, spec_decimal, spec_trim_trailing,
    trim_trailing,
};

verus! {

/// The `[Unit]` block: the section header, the description line, the two
/// network-dependency lines when the service requires the network, and the
/// start rate-limit lines when configured.
pub open spec fn spec_unit_block_lines(
    config: SystemdInstallConfig,
    description: Seq<char>,
    requires_network: bool,
) -> Seq<Seq<char>> {
    seq!["[Unit]"@, "Description="@ + description] + (if requires_network {
        seq!["After=network-online.target"@, "Requires=network-online.target"@]
    } else {
        Seq::<Seq<char>>::empty()
    }) + (match config.start_limit_interval_sec {
        Some(x) => seq!["StartLimitIntervalSec="@ + spec_decimal(x as nat)],
        None => Seq::<Seq<char>>::empty(),
    }) + (match config.start_limit_burst {
        Some(x) => seq!["StartLimitBurst="@ + spec_decimal(x as nat)],
        None => Seq::<Seq<char>>::empty(),
    })
}

/// One environment-variable line.
pub open spec fn spec_env_line(kv: (String, String)) -> Seq<char> {
    "Environment=\""@ + kv.0@ + "="@ + kv.1@ + "\""@
}

/// The environment-variable lines, in the mapping's insertion order.
pub open spec fn spec_env_lines(env: Option<Vec<(String, String)>>) -> Seq<Seq<char>> {
    match env {
        Some(vars) => vars@.map_values(|kv: (String, String)| spec_env_line(kv)),
        None => Seq::<Seq<char>>::empty(),
    }
}

/// The start command: the program path followed by its arguments joined by
/// single spaces, with no quoting of argument contents; with no arguments the
/// line is the program path alone.
pub open spec fn spec_exec_start_line(program: Seq<char>, args: Seq<Seq<char>>) -> Seq<char> {
    if args.len() == 0 {
        "ExecStart="@ + program
    } else {
        "ExecStart="@ + program + " "@ + join_with(args, " "@)
    }
}

/// The restart policy and delay lines; suppressed entirely when restarting on
/// failure is disabled, and the policy line alone when the policy is `No`.
pub open spec fn spec_restart_lines(
    config: SystemdInstallConfig,
    disable_restart_on_failure: bool,
) -> Seq<Seq<char>> {
    if disable_restart_on_failure {
        Seq::<Seq<char>>::empty()
    } else {
        (if config.restart != SystemdServiceRestartType::No {
            seq!["Restart="@ + spec_restart_str(config.restart)]
        } else {
            Seq::<Seq<char>>::empty()
        }) + (match config.restart_sec {
            Some(x) => seq!["RestartSec="@ + spec_decimal(x as nat)],
            None => Seq::<Seq<char>>::empty(),
        })
    }
}

/// The run-as-user line: emitted only at system level, and only when a
/// username is given. A user-level unit must never name a user.
pub open spec fn spec_user_lines(username: Option<String>, user: bool) -> Seq<Seq<char>> {
    if !user {
        match username {
            Some(u) => seq!["User="@ + u@],
            None => Seq::<Seq<char>>::empty(),
        }
    } else {
        Seq::<Seq<char>>::empty()
    }
}

/// The `[Service]` block.
pub open spec fn spec_service_block_lines(
    config: SystemdInstallConfig,
    ctx: ServiceInstallCtx,
    user: bool,
    disable_restart_on_failure: bool,
) -> Seq<Seq<char>> {
    seq!["[Service]"@] + (match ctx.working_directory {
        Some(wd) => seq!["WorkingDirectory="@ + wd@],
        None => Seq::<Seq<char>>::empty(),
    }) + spec_env_lines(ctx.environment) + seq![
        spec_exec_start_line(ctx.program@, ctx.args@.map_values(|a: String| a@)),
    ] + spec_restart_lines(config, disable_restart_on_failure) + spec_user_lines(
        ctx.username,
        user,
    )
}

/// The `[Install]` block: present only when the service autostarts, wanted by
/// the per-user target at user level and the multi-user target at system level.
pub open spec fn spec_install_block_lines(user: bool, autostart: bool) -> Seq<Seq<char>> {
    if autostart {
        seq![
            "[Install]"@,
            if user {
                "WantedBy=default.target"@
            } else {
                "WantedBy=multi-user.target"@
            },
        ]
    } else {
        Seq::<Seq<char>>::empty()
    }
}

/// Every line of the generated document, in order.
pub open spec fn spec_unit_lines(
    config: SystemdInstallConfig,
    description: Seq<char>,
    ctx: ServiceInstallCtx,
    user: bool,
    autostart: bool,
    disable_restart_on_failure: bool,
    requires_network: bool,
) -> Seq<Seq<char>> {
    spec_unit_block_lines(config, description, requires_network) + spec_service_block_lines(
        config,
        ctx,
        user,
        disable_restart_on_failure,
    ) + spec_install_block_lines(user, autostart)
}

/// The generated document: the lines joined by single newlines, with trailing
/// whitespace trimmed.
pub open spec fn spec_unit_text(
    config: SystemdInstallConfig,
    description: Seq<char>,
    ctx: ServiceInstallCtx,
    user: bool,
    autostart: bool,
    disable_restart_on_failure: bool,
    requires_network: bool,
) -> Seq<char> {
    spec_trim_trailing(
        join_with(
            spec_unit_lines(
                config,
                description,
                ctx,
                user,
                autostart,
                disable_restart_on_failure,
                requires_network,
            ),
            "\n"@,
        ),
    )
}

/// Appends one line, tracked at the level of line views.
fn push_line(lines: &mut Vec<String>, l: String)
    ensures
        final(lines)@.map_values(|s: String| s@) == old(lines)@.map_values(|s: String| s@).push(
            l@,
        ),
{
    let ghost pre = lines@;
    let ghost lv = l@;
    lines.push(l);
    proof {
        assert(pre.push(l).map_values(|s: String| s@) =~= pre.map_values(|s: String| s@).push(
            lv,
        ));
    }
}

/// Builds the `[Unit]` block.
fn unit_block_lines(
    config: &SystemdInstallConfig,
    description: &str,
    requires_network: bool,
) -> (r: Vec<String>)
    ensures
        r@.map_values(|s: String| s@) == spec_unit_block_lines(
            *config,
            description@,
            requires_network,
        ),
{
    let mut lines: Vec<String> = Vec::new();
    push_line(&mut lines, String::from_str("[Unit]"));
    push_line(&mut lines, concat2("Description=", description));
    if requires_network {
        push_line(&mut lines, String::from_str("After=network-online.target"));
        push_line(&mut lines, String::from_str("Requires=network-online.target"));
    }
    if let Some(x) = config.start_limit_interval_sec {
        let mut l = String::from_str("StartLimitIntervalSec=");
        push_decimal_u32(&mut l, x);
        push_line(&mut lines, l);
    }
    if let Some(x) = config.start_limit_burst {
        let mut l = String::from_str("StartLimitBurst=");
        push_decimal_u32(&mut l, x);
        push_line(&mut lines, l);
    }
    proof {
        assert(lines@.map_values(|s: String| s@) =~= spec_unit_block_lines(
            *config,
            description@,
            requires_network,
        ));
    }
    lines
}

/// Builds the `[Service]` block.
#[verifier::rlimit(30)]
fn service_block_lines(
    config: &SystemdInstallConfig,
    ctx: &ServiceInstallCtx,
    user: bool,
    disable_restart_on_failure: bool,
) -> (r: Vec<String>)
    ensures
        r@.map_values(|s: String| s@) == spec_service_block_lines(
            *config,
            *ctx,
            user,
            disable_restart_on_failure,
        ),
{
    let mut lines: Vec<String> = Vec::new();
    push_line(&mut lines, String::from_str("[Service]"));
    match &ctx.working_directory {
        Some(wd) => push_line(&mut lines, concat2("WorkingDirectory=", wd.as_str())),
        None => {},
    }
    match &ctx.environment {
        Some(env) => {
            let ghost base = lines@.map_values(|s: String| s@);
            let ghost f = |kv: (String, String)| spec_env_line(kv);
            let mut j: usize = 0;
            while j < env.len()
                invariant
                    j <= env.len(),
                    ctx.environment == Some(*env),
                    lines@.map_values(|s: String| s@) == base + env@.take(j as int).map_values(
                        f,
                    ),
                    f == (|kv: (String, String)| spec_env_line(kv)),
                decreases env.len() - j,
            {
                let mut l = String::from_str("Environment=\"");
                l.append(env[j].0.as_str());
                l.append("=");
                l.append(env[j].1.as_str());
                l.append("\"");
                push_line(&mut lines, l);
                proof {
                    assert(env@.take(j + 1).map_values(f) =~= env@.take(j as int).map_values(
                        f,
                    ).push(spec_env_line(env@[j as int])));
                    assert(base + env@.take(j as int).map_values(f).push(
                        spec_env_line(env@[j as int]),
                    ) =~= (base + env@.take(j as int).map_values(f)).push(
                        spec_env_line(env@[j as int]),
                    ));
                }
                j = j + 1;
            }
            proof {
                assert(env@.take(env.len() as int) =~= env@);
            }
        },
        None => {},
    }
    let mut l = String::from_str("ExecStart=");
    l.append(ctx.program.as_str());
    if ctx.args.len() > 0 {
        l.append(" ");
        let joined = join_strings(&ctx.args, " ");
        l.append(joined.as_str());
    }
    proof {
        assert(l@ == spec_exec_start_line(ctx.program@, ctx.args@.map_values(|a: String| a@)));
    }
    push_line(&mut lines, l);
    if !disable_restart_on_failure {
        if !matches!(config.restart, SystemdServiceRestartType::No) {
            push_line(&mut lines, concat2("Restart=", config.restart.as_systemd_str()));
        }
        if let Some(x) = config.restart_sec {
            let mut rl = String::from_str("RestartSec=");
            push_decimal_u32(&mut rl, x);
            push_line(&mut lines, rl);
        }
    }
    if !user {
        match &ctx.username {
            Some(u) => push_line(&mut lines, concat2("User=", u.as_str())),
            None => {},
        }
    }
    proof {
        assert(lines@.map_values(|s: String| s@) =~= spec_service_block_lines(
            *config,
            *ctx,
            user,
            disable_restart_on_failure,
        ));
    }
    lines
}

/// Builds the `[Install]` block.
fn install_block_lines(user: bool, autostart: bool) -> (r: Vec<String>)
    ensures
        r@.map_values(|s: String| s@) == spec_install_block_lines(user, autostart),
{
    let mut lines: Vec<String> = Vec::new();
    if autostart {
        push_line(&mut lines, String::from_str("[Install]"));
        if user {
            push_line(&mut lines, String::from_str("WantedBy=default.target"));
        } else {
            push_line(&mut lines, String::from_str("WantedBy=multi-user.target"));
        }
    }
    proof {
        assert(lines@.map_values(|s: String| s@) =~= spec_install_block_lines(user, autostart));
    }
    lines
}

/// Generates the unit-description text for the given policy, unit name,
/// context and level. Pure: the result is a function of the arguments alone.
pub fn make_service(
    config: &SystemdInstallConfig,
    description: &str,
    ctx: &ServiceInstallCtx,
    user: bool,
    autostart: bool,
    disable_restart_on_failure: bool,
    requires_network: bool,
) -> (r: String)
    ensures
        r@ == spec_unit_text(
            *config,
            description@,
            *ctx,
            user,
            autostart,
            disable_restart_on_failure,
            requires_network,
        ),
{
    let mut lines = unit_block_lines(config, description, requires_network);
    let mut svc = service_block_lines(config, ctx, user, disable_restart_on_failure);
    let mut inst = install_block_lines(user, autostart);
    let ghost ub = lines@.map_values(|s: String| s@);
    let ghost sb = svc@.map_values(|s: String| s@);
    let ghost ib = inst@.map_values(|s: String| s@);
    lines.append(&mut svc);
    lines.append(&mut inst);
    proof {
        assert(lines@.map_values(|s: String| s@) =~= ub + sb + ib);
    }
    let mut text = join_strings(&lines, "\n");
    trim_trailing(&mut text);
    text
}

/// The generator is deterministic: identical configuration, context and level
/// always produce identical text.
pub proof fn lemma_generator_deterministic(
    config1: SystemdInstallConfig,
    description1: Seq<char>,
    ctx1: ServiceInstallCtx,
    user1: bool,
    autostart1: bool,
    disable1: bool,
    network1: bool,
    config2: SystemdInstallConfig,
    description2: Seq<char>,
    ctx2: ServiceInstallCtx,
    user2: bool,
    autostart2: bool,
    disable2: bool,
    network2: bool,
)
    requires
        config1 == config2,
        description1 == description2,
        ctx1 == ctx2,
        user1 == user2,
        autostart1 == autostart2,
        disable1 == disable2,
        network1 == network2,
    ensures
        spec_unit_text(config1, description1, ctx1, user1, autostart1, disable1, network1)
            == spec_unit_text(config2, description2, ctx2, user2, autostart2, disable2, network2),
{
}

/// With autostart off the install block is omitted entirely: the document's
/// lines are exactly the unit block followed by the service block.
pub proof fn lemma_install_block_omitted(
    config: SystemdInstallConfig,
    description: Seq<char>,
    ctx: ServiceInstallCtx,
    user: bool,
    disable_restart_on_failure: bool,
    requires_network: bool,
)
    ensures
        spec_unit_lines(config, description, ctx, user, false, disable_restart_on_failure,
            requires_network) == spec_unit_block_lines(config, description, requires_network)
            + spec_service_block_lines(config, ctx, user, disable_restart_on_failure),
{
    let ub = spec_unit_block_lines(config, description, requires_network);
    let sb = spec_service_block_lines(config, ctx, user, disable_restart_on_failure);
    assert(spec_install_block_lines(user, false) =~= Seq::<Seq<char>>::empty());
    assert(ub + sb + Seq::<Seq<char>>::empty() =~= ub + sb);
}

/// Whether a line belongs to the install block: the section header or a
/// wanted-by line.
pub open spec fn is_install_block_line(l: Seq<char>) -> bool {
    l == "[Install]"@ || (l.len() >= 9 && l.subrange(0, 9) == "WantedBy="@)
}

/// Whether no line of a document belongs to the install block.
pub open spec fn no_install_block_line(ls: Seq<Seq<char>>) -> bool {
    forall|i: int| 0 <= i < ls.len() ==> !is_install_block_line(#[trigger] ls[i])
}

proof fn lemma_no_install_line_concat(a: Seq<Seq<char>>, b: Seq<Seq<char>>)
    requires
        no_install_block_line(a),
        no_install_block_line(b),
    ensures
        no_install_block_line(a + b),
{
    assert forall|i: int| 0 <= i < (a + b).len() implies !is_install_block_line(
        #[trigger] (a + b)[i],
    ) by {
        if i < a.len() {
            assert((a + b)[i] == a[i]);
        } else {
            assert((a + b)[i] == b[i - a.len()]);
        }
    }
}

proof fn lemma_not_install_line_by_head(l: Seq<char>)
    requires
        l.len() > 0,
        l[0] != '[',
        l[0] != 'W',
    ensures
        !is_install_block_line(l),
{
    reveal_strlit("[Install]");
    reveal_strlit("WantedBy=");
    if l.len() >= 9 && l.subrange(0, 9) == "WantedBy="@ {
        assert(l.subrange(0, 9)[0] == l[0]);
        assert("WantedBy="@[0] == 'W');
    }
}

proof fn lemma_unit_block_no_install_line(
    config: SystemdInstallConfig,
    description: Seq<char>,
    requires_network: bool,
)
    ensures
        no_install_block_line(spec_unit_block_lines(config, description, requires_network)),
{
    reveal_strlit("[Unit]");
    reveal_strlit("[Install]");
    reveal_strlit("WantedBy=");
    reveal_strlit("Description=");
    reveal_strlit("After=network-online.target");
    reveal_strlit("Requires=network-online.target");
    reveal_strlit("StartLimitIntervalSec=");
    reveal_strlit("StartLimitBurst=");
    let head = seq!["[Unit]"@, "Description="@ + description];
    let net: Seq<Seq<char>> = if requires_network {
        seq!["After=network-online.target"@, "Requires=network-online.target"@]
    } else {
        Seq::<Seq<char>>::empty()
    };
    let interval: Seq<Seq<char>> = match config.start_limit_interval_sec {
        Some(x) => seq!["StartLimitIntervalSec="@ + spec_decimal(x as nat)],
        None => Seq::<Seq<char>>::empty(),
    };
    let burst: Seq<Seq<char>> = match config.start_limit_burst {
        Some(x) => seq!["StartLimitBurst="@ + spec_decimal(x as nat)],
        None => Seq::<Seq<char>>::empty(),
    };
    assert("[Unit]"@.len() == 6);
    assert(!is_install_block_line("[Unit]"@));
    assert(("Description="@ + description)[0] == 'D');
    lemma_not_install_line_by_head("Description="@ + description);
    assert(no_install_block_line(head));
    if requires_network {
        assert(("After=network-online.target"@)[0] == 'A');
        lemma_not_install_line_by_head("After=network-online.target"@);
        assert(("Requires=network-online.target"@)[0] == 'R');
        lemma_not_install_line_by_head("Requires=network-online.target"@);
        assert(no_install_block_line(net));
    }
    match config.start_limit_interval_sec {
        Some(x) => {
            assert(("StartLimitIntervalSec="@ + spec_decimal(x as nat))[0] == 'S');
            lemma_not_install_line_by_head("StartLimitIntervalSec="@ + spec_decimal(x as nat));
            assert(no_install_block_line(interval));
        },
        None => {},
    }
    match config.start_limit_burst {
        Some(x) => {
            assert(("StartLimitBurst="@ + spec_decimal(x as nat))[0] == 'S');
            lemma_not_install_line_by_head("StartLimitBurst="@ + spec_decimal(x as nat));
            assert(no_install_block_line(burst));
        },
        None => {},
    }
    lemma_no_install_line_concat(head, net);
    lemma_no_install_line_concat(head + net, interval);
    lemma_no_install_line_concat(head + net + interval, burst);
}

proof fn lemma_service_block_no_install_line(
    config: SystemdInstallConfig,
    ctx: ServiceInstallCtx,
    user: bool,
    disable_restart_on_failure: bool,
)
    ensures
        no_install_block_line(
            spec_service_block_lines(config, ctx, user, disable_restart_on_failure),
        ),
{
    reveal_strlit("[Service]");
    reveal_strlit("[Install]");
    reveal_strlit("WantedBy=");
    reveal_strlit("WorkingDirectory=");
    reveal_strlit("Environment=\"");
    reveal_strlit("ExecStart=");
    reveal_strlit("Restart=");
    reveal_strlit("RestartSec=");
    reveal_strlit("User=");
    let head = seq!["[Service]"@];
    let wd: Seq<Seq<char>> = match ctx.working_directory {
        Some(w) => seq!["WorkingDirectory="@ + w@],
        None => Seq::<Seq<char>>::empty(),
    };
    let env = spec_env_lines(ctx.environment);
    let exec_line = seq![
        spec_exec_start_line(ctx.program@, ctx.args@.map_values(|a: String| a@)),
    ];
    let restart = spec_restart_lines(config, disable_restart_on_failure);
    let users = spec_user_lines(ctx.username, user);
    assert("[Service]"@.len() == 9 && "[Install]"@.len() == 9);
    assert("[Service]"@[1] == 'S' && "[Install]"@[1] == 'I');
    assert("[Service]"@ != "[Install]"@);
    assert("[Service]"@.subrange(0, 9) =~= "[Service]"@);
    assert(!is_install_block_line("[Service]"@));
    assert(no_install_block_line(head));
    match ctx.working_directory {
        Some(w) => {
            let l = "WorkingDirectory="@ + w@;
            assert(l[0] == 'W' && l[1] == 'o');
            if l.len() >= 9 && l.subrange(0, 9) == "WantedBy="@ {
                assert(l.subrange(0, 9)[1] == l[1]);
                assert("WantedBy="@[1] == 'a');
            }
            assert(!is_install_block_line(l));
            assert(no_install_block_line(wd));
        },
        None => {},
    }
    match ctx.environment {
        Some(vars) => {
            assert forall|i: int| 0 <= i < env.len() implies !is_install_block_line(
                #[trigger] env[i],
            ) by {
                assert(env[i] == spec_env_line(vars@[i]));
                assert(spec_env_line(vars@[i])[0] == 'E');
                lemma_not_install_line_by_head(spec_env_line(vars@[i]));
            }
        },
        None => {},
    }
    assert(spec_exec_start_line(ctx.program@, ctx.args@.map_values(|a: String| a@))[0] == 'E');
    lemma_not_install_line_by_head(
        spec_exec_start_line(ctx.program@, ctx.args@.map_values(|a: String| a@)),
    );
    assert(no_install_block_line(exec_line));
    if !disable_restart_on_failure {
        if config.restart != SystemdServiceRestartType::No {
            assert(("Restart="@ + spec_restart_str(config.restart))[0] == 'R');
            lemma_not_install_line_by_head("Restart="@ + spec_restart_str(config.restart));
        }
        match config.restart_sec {
            Some(x) => {
                assert(("RestartSec="@ + spec_decimal(x as nat))[0] == 'R');
                lemma_not_install_line_by_head("RestartSec="@ + spec_decimal(x as nat));
            },
            None => {},
        }
    }
    assert(no_install_block_line(restart));
    if !user {
        match ctx.username {
            Some(u) => {
                assert(("User="@ + u@)[0] == 'U');
                lemma_not_install_line_by_head("User="@ + u@);
            },
            None => {},
        }
    }
    assert(no_install_block_line(users));
    lemma_no_install_line_concat(head, wd);
    lemma_no_install_line_concat(head + wd, env);
    lemma_no_install_line_concat(head + wd + env, exec_line);
    lemma_no_install_line_concat(head + wd + env + exec_line, restart);
    lemma_no_install_line_concat(head + wd + env + exec_line + restart, users);
}

/// The document carries an install block exactly when the service autostarts:
/// with autostart on, the install header stands among the lines; with it off,
/// no line is the header and none is a wanted-by line.
pub proof fn lemma_install_lines_iff_autostart(
    config: SystemdInstallConfig,
    description: Seq<char>,
    ctx: ServiceInstallCtx,
    user: bool,
    autostart: bool,
    disable_restart_on_failure: bool,
    requires_network: bool,
)
    ensures
        autostart ==> exists|i: int|
            0 <= i < spec_unit_lines(config, description, ctx, user, autostart,
                disable_restart_on_failure, requires_network).len()
            && #[trigger] spec_unit_lines(config, description, ctx, user, autostart,
                disable_restart_on_failure, requires_network)[i] == "[Install]"@,
        !autostart ==> no_install_block_line(
            spec_unit_lines(config, description, ctx, user, autostart,
                disable_restart_on_failure, requires_network),
        ),
{
    let ub = spec_unit_block_lines(config, description, requires_network);
    let sb = spec_service_block_lines(config, ctx, user, disable_restart_on_failure);
    let ib = spec_install_block_lines(user, autostart);
    let lines = ub + sb + ib;
    if autostart {
        let k = ub.len() + sb.len();
        assert(ib[0] == "[Install]"@);
        assert(lines[k as int] == ib[0]);
        assert(spec_unit_lines(config, description, ctx, user, autostart,
            disable_restart_on_failure, requires_network) == lines);
        assert(0 <= k < lines.len());
        assert(spec_unit_lines(config, description, ctx, user, autostart,
            disable_restart_on_failure, requires_network)[k as int] == "[Install]"@);
    } else {
        lemma_unit_block_no_install_line(config, description, requires_network);
        lemma_service_block_no_install_line(config, ctx, user, disable_restart_on_failure);
        assert(no_install_block_line(ib));
        lemma_no_install_line_concat(ub, sb);
        lemma_no_install_line_concat(ub + sb, ib);
    }
}

/// Whether a line is one of the two network-dependency directives.
pub open spec fn is_network_line(l: Seq<char>) -> bool {
    l == "After=network-online.target"@ || l == "Requires=network-online.target"@
}

/// Whether no line of a document is a network-dependency directive.
pub open spec fn no_network_line(ls: Seq<Seq<char>>) -> bool {
    forall|i: int| 0 <= i < ls.len() ==> !is_network_line(#[trigger] ls[i])
}

/// Whether a line carries the given key: the line opens with it.
pub open spec fn has_line_prefix(l: Seq<char>, p: Seq<char>) -> bool {
    l.len() >= p.len() && l.subrange(0, p.len() as int) == p
}

/// Whether a line is a start-limit-interval directive.
pub open spec fn is_interval_line(l: Seq<char>) -> bool {
    has_line_prefix(l, "StartLimitIntervalSec="@)
}

/// Whether a line is a start-limit-burst directive.
pub open spec fn is_burst_line(l: Seq<char>) -> bool {
    has_line_prefix(l, "StartLimitBurst="@)
}

/// Whether no line of a document is a start-limit-interval directive.
pub open spec fn no_interval_line(ls: Seq<Seq<char>>) -> bool {
    forall|i: int| 0 <= i < ls.len() ==> !is_interval_line(#[trigger] ls[i])
}

/// Whether no line of a document is a start-limit-burst directive.
pub open spec fn no_burst_line(ls: Seq<Seq<char>>) -> bool {
    forall|i: int| 0 <= i < ls.len() ==> !is_burst_line(#[trigger] ls[i])
}

proof fn lemma_cond_lines_concat(a: Seq<Seq<char>>, b: Seq<Seq<char>>)
    ensures
        no_network_line(a) && no_network_line(b) ==> no_network_line(a + b),
        no_interval_line(a) && no_interval_line(b) ==> no_interval_line(a + b),
        no_burst_line(a) && no_burst_line(b) ==> no_burst_line(a + b),
{
    if no_network_line(a) && no_network_line(b) {
        assert forall|i: int| 0 <= i < (a + b).len() implies !is_network_line(
            #[trigger] (a + b)[i],
        ) by {
            if i < a.len() {
                assert((a + b)[i] == a[i]);
            } else {
                assert((a + b)[i] == b[i - a.len()]);
            }
        }
    }
    if no_interval_line(a) && no_interval_line(b) {
        assert forall|i: int| 0 <= i < (a + b).len() implies !is_interval_line(
            #[trigger] (a + b)[i],
        ) by {
            if i < a.len() {
                assert((a + b)[i] == a[i]);
            } else {
                assert((a + b)[i] == b[i - a.len()]);
            }
        }
    }
    if no_burst_line(a) && no_burst_line(b) {
        assert forall|i: int| 0 <= i < (a + b).len() implies !is_burst_line(
            #[trigger] (a + b)[i],
        ) by {
            if i < a.len() {
                assert((a + b)[i] == a[i]);
            } else {
                assert((a + b)[i] == b[i - a.len()]);
            }
        }
    }
}

proof fn lemma_not_network_by_head(l: Seq<char>)
    requires
        l.len() > 0,
        l[0] != 'A',
        l[0] != 'R',
    ensures
        !is_network_line(l),
{
    reveal_strlit("After=network-online.target");
    reveal_strlit("Requires=network-online.target");
}

proof fn lemma_not_startlimit_by_head(l: Seq<char>)
    requires
        l.len() > 0,
        l[0] != 'S',
    ensures
        !is_interval_line(l),
        !is_burst_line(l),
{
    reveal_strlit("StartLimitIntervalSec=");
    reveal_strlit("StartLimitBurst=");
    if is_interval_line(l) {
        assert(l.subrange(0, 22)[0] == l[0]);
    }
    if is_burst_line(l) {
        assert(l.subrange(0, 16)[0] == l[0]);
    }
}

proof fn lemma_restart_line_not_cond(l: Seq<char>)
    requires
        l.len() > 2,
        l[0] == 'R',
        l[2] == 's',
    ensures
        !is_network_line(l),
        !is_interval_line(l),
        !is_burst_line(l),
{
    reveal_strlit("After=network-online.target");
    reveal_strlit("Requires=network-online.target");
    lemma_not_startlimit_by_head(l);
}

proof fn lemma_interval_line_not_others(d: Seq<char>)
    ensures
        !is_network_line("StartLimitIntervalSec="@ + d),
        !is_burst_line("StartLimitIntervalSec="@ + d),
{
    reveal_strlit("StartLimitIntervalSec=");
    reveal_strlit("StartLimitBurst=");
    let l = "StartLimitIntervalSec="@ + d;
    lemma_not_network_by_head(l);
    if is_burst_line(l) {
        assert(l.subrange(0, 16)[10] == l[10]);
        assert(l[10] == "StartLimitIntervalSec="@[10]);
        assert("StartLimitIntervalSec="@[10] == 'I');
        assert("StartLimitBurst="@[10] == 'B');
    }
}

proof fn lemma_burst_line_not_others(d: Seq<char>)
    ensures
        !is_network_line("StartLimitBurst="@ + d),
        !is_interval_line("StartLimitBurst="@ + d),
{
    reveal_strlit("StartLimitIntervalSec=");
    reveal_strlit("StartLimitBurst=");
    let l = "StartLimitBurst="@ + d;
    lemma_not_network_by_head(l);
    if is_interval_line(l) {
        assert(l.subrange(0, 22)[10] == l[10]);
        assert(l[10] == "StartLimitBurst="@[10]);
        assert("StartLimitBurst="@[10] == 'B');
        assert("StartLimitIntervalSec="@[10] == 'I');
    }
}

proof fn lemma_unit_block_cond_absence(
    config: SystemdInstallConfig,
    description: Seq<char>,
    requires_network: bool,
)
    ensures
        !requires_network ==> no_network_line(
            spec_unit_block_lines(config, description, requires_network),
        ),
        config.start_limit_interval_sec is None ==> no_interval_line(
            spec_unit_block_lines(config, description, requires_network),
        ),
        config.start_limit_burst is None ==> no_burst_line(
            spec_unit_block_lines(config, description, requires_network),
        ),
{
    reveal_strlit("[Unit]");
    reveal_strlit("Description=");
    reveal_strlit("After=network-online.target");
    reveal_strlit("Requires=network-online.target");
    let head = seq!["[Unit]"@, "Description="@ + description];
    let net: Seq<Seq<char>> = if requires_network {
        seq!["After=network-online.target"@, "Requires=network-online.target"@]
    } else {
        Seq::<Seq<char>>::empty()
    };
    let interval: Seq<Seq<char>> = match config.start_limit_interval_sec {
        Some(x) => seq!["StartLimitIntervalSec="@ + spec_decimal(x as nat)],
        None => Seq::<Seq<char>>::empty(),
    };
    let burst: Seq<Seq<char>> = match config.start_limit_burst {
        Some(x) => seq!["StartLimitBurst="@ + spec_decimal(x as nat)],
        None => Seq::<Seq<char>>::empty(),
    };
    lemma_not_network_by_head("[Unit]"@);
    lemma_not_startlimit_by_head("[Unit]"@);
    assert(("Description="@ + description)[0] == 'D');
    lemma_not_network_by_head("Description="@ + description);
    lemma_not_startlimit_by_head("Description="@ + description);
    if requires_network {
        lemma_not_startlimit_by_head("After=network-online.target"@);
        lemma_not_startlimit_by_head("Requires=network-online.target"@);
    }
    match config.start_limit_interval_sec {
        Some(x) => {
            lemma_interval_line_not_others(spec_decimal(x as nat));
        },
        None => {},
    }
    match config.start_limit_burst {
        Some(x) => {
            lemma_burst_line_not_others(spec_decimal(x as nat));
        },
        None => {},
    }
    if !requires_network {
        assert(no_network_line(head));
        assert(no_network_line(net));
        assert(no_network_line(interval));
        assert(no_network_line(burst));
        assert forall|i: int| 0 <= i < (head + net + interval + burst).len() implies
            !is_network_line(#[trigger] (head + net + interval + burst)[i]) by {
            lemma_segment_index(head, net, interval, burst, i);
        }
    }
    if config.start_limit_interval_sec is None {
        assert(no_interval_line(head));
        assert(no_interval_line(net));
        assert(no_interval_line(interval));
        assert(no_interval_line(burst));
        assert forall|i: int| 0 <= i < (head + net + interval + burst).len() implies
            !is_interval_line(#[trigger] (head + net + interval + burst)[i]) by {
            lemma_segment_index(head, net, interval, burst, i);
        }
    }
    if config.start_limit_burst is None {
        assert(no_burst_line(head));
        assert(no_burst_line(net));
        assert(no_burst_line(interval));
        assert(no_burst_line(burst));
        assert forall|i: int| 0 <= i < (head + net + interval + burst).len() implies
            !is_burst_line(#[trigger] (head + net + interval + burst)[i]) by {
            lemma_segment_index(head, net, interval, burst, i);
        }
    }
}

/// An index into a four-part concatenation lands in one of the parts.
proof fn lemma_segment_index(
    a: Seq<Seq<char>>,
    b: Seq<Seq<char>>,
    c: Seq<Seq<char>>,
    d: Seq<Seq<char>>,
    i: int,
)
    requires
        0 <= i < (a + b + c + d).len(),
    ensures
        (i < a.len() && (a + b + c + d)[i] == a[i]) || (a.len() <= i < a.len() + b.len() && (a
            + b + c + d)[i] == b[i - a.len()]) || (a.len() + b.len() <= i < a.len() + b.len()
            + c.len() && (a + b + c + d)[i] == c[i - a.len() - b.len()]) || (a.len() + b.len()
            + c.len() <= i && (a + b + c + d)[i] == d[i - a.len() - b.len() - c.len()]),
{
}

proof fn lemma_service_block_cond_absence(
    config: SystemdInstallConfig,
    ctx: ServiceInstallCtx,
    user: bool,
    disable_restart_on_failure: bool,
)
    ensures
        no_network_line(spec_service_block_lines(config, ctx, user, disable_restart_on_failure)),
        no_interval_line(
            spec_service_block_lines(config, ctx, user, disable_restart_on_failure),
        ),
        no_burst_line(spec_service_block_lines(config, ctx, user, disable_restart_on_failure)),
{
    reveal_strlit("[Service]");
    reveal_strlit("WorkingDirectory=");
    reveal_strlit("Environment=\"");
    reveal_strlit("ExecStart=");
    reveal_strlit("Restart=");
    reveal_strlit("RestartSec=");
    reveal_strlit("User=");
    let head = seq!["[Service]"@];
    let wd: Seq<Seq<char>> = match ctx.working_directory {
        Some(w) => seq!["WorkingDirectory="@ + w@],
        None => Seq::<Seq<char>>::empty(),
    };
    let env = spec_env_lines(ctx.environment);
    let exec_line = seq![
        spec_exec_start_line(ctx.program@, ctx.args@.map_values(|a: String| a@)),
    ];
    let restart = spec_restart_lines(config, disable_restart_on_failure);
    let users = spec_user_lines(ctx.username, user);
    lemma_not_network_by_head("[Service]"@);
    lemma_not_startlimit_by_head("[Service]"@);
    match ctx.working_directory {
        Some(w) => {
            assert(("WorkingDirectory="@ + w@)[0] == 'W');
            lemma_not_network_by_head("WorkingDirectory="@ + w@);
            lemma_not_startlimit_by_head("WorkingDirectory="@ + w@);
        },
        None => {},
    }
    match ctx.environment {
        Some(vars) => {
            assert forall|i: int| 0 <= i < env.len() implies !is_network_line(
                #[trigger] env[i],
            ) && !is_interval_line(env[i]) && !is_burst_line(env[i]) by {
                assert(env[i] == spec_env_line(vars@[i]));
                assert(spec_env_line(vars@[i])[0] == 'E');
                lemma_not_network_by_head(spec_env_line(vars@[i]));
                lemma_not_startlimit_by_head(spec_env_line(vars@[i]));
            }
        },
        None => {},
    }
    let el = spec_exec_start_line(ctx.program@, ctx.args@.map_values(|a: String| a@));
    assert(el[0] == 'E');
    lemma_not_network_by_head(el);
    lemma_not_startlimit_by_head(el);
    if !disable_restart_on_failure {
        if config.restart != SystemdServiceRestartType::No {
            let rl = "Restart="@ + spec_restart_str(config.restart);
            assert(rl[0] == 'R' && rl[2] == 's');
            lemma_restart_line_not_cond(rl);
        }
        match config.restart_sec {
            Some(x) => {
                let rl = "RestartSec="@ + spec_decimal(x as nat);
                assert(rl[0] == 'R' && rl[2] == 's');
                lemma_restart_line_not_cond(rl);
            },
            None => {},
        }
    }
    if !user {
        match ctx.username {
            Some(u) => {
                assert(("User="@ + u@)[0] == 'U');
                lemma_not_network_by_head("User="@ + u@);
                lemma_not_startlimit_by_head("User="@ + u@);
            },
            None => {},
        }
    }
    assert(no_network_line(head) && no_interval_line(head) && no_burst_line(head));
    assert(no_network_line(wd) && no_interval_line(wd) && no_burst_line(wd));
    assert(no_network_line(env) && no_interval_line(env) && no_burst_line(env));
    assert(no_network_line(exec_line) && no_interval_line(exec_line) && no_burst_line(
        exec_line,
    ));
    assert(no_network_line(restart) && no_interval_line(restart) && no_burst_line(restart));
    assert(no_network_line(users) && no_interval_line(users) && no_burst_line(users));
    lemma_cond_lines_concat(head, wd);
    lemma_cond_lines_concat(head + wd, env);
    lemma_cond_lines_concat(head + wd + env, exec_line);
    lemma_cond_lines_concat(head + wd + env + exec_line, restart);
    lemma_cond_lines_concat(head + wd + env + exec_line + restart, users);
}

proof fn lemma_install_block_cond_absence(user: bool, autostart: bool)
    ensures
        no_network_line(spec_install_block_lines(user, autostart)),
        no_interval_line(spec_install_block_lines(user, autostart)),
        no_burst_line(spec_install_block_lines(user, autostart)),
{
    reveal_strlit("[Install]");
    reveal_strlit("WantedBy=default.target");
    reveal_strlit("WantedBy=multi-user.target");
    if autostart {
        lemma_not_network_by_head("[Install]"@);
        lemma_not_startlimit_by_head("[Install]"@);
        if user {
            lemma_not_network_by_head("WantedBy=default.target"@);
            lemma_not_startlimit_by_head("WantedBy=default.target"@);
        } else {
            lemma_not_network_by_head("WantedBy=multi-user.target"@);
            lemma_not_startlimit_by_head("WantedBy=multi-user.target"@);
        }
    }
}

/// The conditional `[Unit]` directives stand in the document exactly when
/// configured: the two network-dependency lines when the service requires the
/// network, and each start-limit line when its value is set; with a trigger
/// off, no line of the whole document carries that directive.
pub proof fn lemma_unit_directives_iff_configured(
    config: SystemdInstallConfig,
    description: Seq<char>,
    ctx: ServiceInstallCtx,
    user: bool,
    autostart: bool,
    disable_restart_on_failure: bool,
    requires_network: bool,
)
    ensures
        requires_network ==> {
            let lines = spec_unit_lines(config, description, ctx, user, autostart,
                disable_restart_on_failure, requires_network);
            exists|i: int| 0 <= i < lines.len() && #[trigger] lines[i]
                == "After=network-online.target"@
        },
        requires_network ==> {
            let lines = spec_unit_lines(config, description, ctx, user, autostart,
                disable_restart_on_failure, requires_network);
            exists|i: int| 0 <= i < lines.len() && #[trigger] lines[i]
                == "Requires=network-online.target"@
        },
        !requires_network ==> no_network_line(
            spec_unit_lines(config, description, ctx, user, autostart,
                disable_restart_on_failure, requires_network),
        ),
        config.start_limit_interval_sec matches Some(x) ==> {
            let lines = spec_unit_lines(config, description, ctx, user, autostart,
                disable_restart_on_failure, requires_network);
            exists|i: int| 0 <= i < lines.len() && #[trigger] lines[i]
                == "StartLimitIntervalSec="@ + spec_decimal(x as nat)
        },
        config.start_limit_interval_sec is None ==> no_interval_line(
            spec_unit_lines(config, description, ctx, user, autostart,
                disable_restart_on_failure, requires_network),
        ),
        config.start_limit_burst matches Some(x) ==> {
            let lines = spec_unit_lines(config, description, ctx, user, autostart,
                disable_restart_on_failure, requires_network);
            exists|i: int| 0 <= i < lines.len() && #[trigger] lines[i]
                == "StartLimitBurst="@ + spec_decimal(x as nat)
        },
        config.start_limit_burst is None ==> no_burst_line(
            spec_unit_lines(config, description, ctx, user, autostart,
                disable_restart_on_failure, requires_network),
        ),
{
    let ub = spec_unit_block_lines(config, description, requires_network);
    let sb = spec_service_block_lines(config, ctx, user, disable_restart_on_failure);
    let ib = spec_install_block_lines(user, autostart);
    let lines = spec_unit_lines(config, description, ctx, user, autostart,
        disable_restart_on_failure, requires_network);
    assert(lines == ub + sb + ib);
    lemma_unit_block_cond_absence(config, description, requires_network);
    lemma_service_block_cond_absence(config, ctx, user, disable_restart_on_failure);
    lemma_install_block_cond_absence(user, autostart);
    lemma_cond_lines_concat(ub, sb);
    lemma_cond_lines_concat(ub + sb, ib);
    let head = seq!["[Unit]"@, "Description="@ + description];
    let net: Seq<Seq<char>> = if requires_network {
        seq!["After=network-online.target"@, "Requires=network-online.target"@]
    } else {
        Seq::<Seq<char>>::empty()
    };
    let interval: Seq<Seq<char>> = match config.start_limit_interval_sec {
        Some(x) => seq!["StartLimitIntervalSec="@ + spec_decimal(x as nat)],
        None => Seq::<Seq<char>>::empty(),
    };
    if requires_network {
        assert(ub[2] == "After=network-online.target"@);
        assert(lines[2] == ub[2]);
        assert(ub[3] == "Requires=network-online.target"@);
        assert(lines[3] == ub[3]);
    }
    match config.start_limit_interval_sec {
        Some(x) => {
            let k = head.len() + net.len();
            assert(ub[k as int] == "StartLimitIntervalSec="@ + spec_decimal(x as nat));
            assert(lines[k as int] == ub[k as int]);
        },
        None => {},
    }
    match config.start_limit_burst {
        Some(x) => {
            let k = head.len() + net.len() + interval.len();
            assert(ub[k as int] == "StartLimitBurst="@ + spec_decimal(x as nat));
            assert(lines[k as int] == ub[k as int]);
        },
        None => {},
    }
}

/// Whether a line is a run-as-user directive.
pub open spec fn is_user_directive(l: Seq<char>) -> bool {
    l.len() >= 5 && l.subrange(0, 5) == "User="@
}

/// Whether no line of a document is a run-as-user directive.
pub open spec fn no_user_directive(ls: Seq<Seq<char>>) -> bool {
    forall|i: int| 0 <= i < ls.len() ==> !is_user_directive(#[trigger] ls[i])
}

/// Every line is nonempty and opens with a character other than `U`.
spec fn lines_avoid_u(ls: Seq<Seq<char>>) -> bool {
    forall|i: int| 0 <= i < ls.len() ==> (#[trigger] ls[i]).len() > 0 && ls[i][0] != 'U'
}

proof fn lemma_avoid_u_concat(a: Seq<Seq<char>>, b: Seq<Seq<char>>)
    requires
        lines_avoid_u(a),
        lines_avoid_u(b),
    ensures
        lines_avoid_u(a + b),
{
    assert forall|i: int| 0 <= i < (a + b).len() implies (#[trigger] (a + b)[i]).len() > 0 && (a
        + b)[i][0] != 'U' by {
        if i < a.len() {
            assert((a + b)[i] == a[i]);
        } else {
            assert((a + b)[i] == b[i - a.len()]);
        }
    }
}

proof fn lemma_unit_block_avoids_u(
    config: SystemdInstallConfig,
    description: Seq<char>,
    requires_network: bool,
)
    ensures
        lines_avoid_u(spec_unit_block_lines(config, description, requires_network)),
{
    reveal_strlit("[Unit]");
    reveal_strlit("Description=");
    reveal_strlit("After=network-online.target");
    reveal_strlit("Requires=network-online.target");
    reveal_strlit("StartLimitIntervalSec=");
    reveal_strlit("StartLimitBurst=");
    let head = seq!["[Unit]"@, "Description="@ + description];
    let net: Seq<Seq<char>> = if requires_network {
        seq!["After=network-online.target"@, "Requires=network-online.target"@]
    } else {
        Seq::<Seq<char>>::empty()
    };
    let interval: Seq<Seq<char>> = match config.start_limit_interval_sec {
        Some(x) => seq!["StartLimitIntervalSec="@ + spec_decimal(x as nat)],
        None => Seq::<Seq<char>>::empty(),
    };
    let burst: Seq<Seq<char>> = match config.start_limit_burst {
        Some(x) => seq!["StartLimitBurst="@ + spec_decimal(x as nat)],
        None => Seq::<Seq<char>>::empty(),
    };
    assert(("Description="@ + description)[0] == 'D');
    assert(lines_avoid_u(head));
    if requires_network {
        assert(lines_avoid_u(net));
    }
    match config.start_limit_interval_sec {
        Some(x) => {
            assert(("StartLimitIntervalSec="@ + spec_decimal(x as nat))[0] == 'S');
            assert(lines_avoid_u(interval));
        },
        None => {},
    }
    match config.start_limit_burst {
        Some(x) => {
            assert(("StartLimitBurst="@ + spec_decimal(x as nat))[0] == 'S');
            assert(lines_avoid_u(burst));
        },
        None => {},
    }
    lemma_avoid_u_concat(head, net);
    lemma_avoid_u_concat(head + net, interval);
    lemma_avoid_u_concat(head + net + interval, burst);
}

proof fn lemma_user_service_block_avoids_u(
    config: SystemdInstallConfig,
    ctx: ServiceInstallCtx,
    disable_restart_on_failure: bool,
)
    ensures
        lines_avoid_u(spec_service_block_lines(config, ctx, true, disable_restart_on_failure)),
{
    reveal_strlit("[Service]");
    reveal_strlit("WorkingDirectory=");
    reveal_strlit("Environment=\"");
    reveal_strlit("ExecStart=");
    reveal_strlit("Restart=");
    reveal_strlit("RestartSec=");
    let head = seq!["[Service]"@];
    let wd: Seq<Seq<char>> = match ctx.working_directory {
        Some(w) => seq!["WorkingDirectory="@ + w@],
        None => Seq::<Seq<char>>::empty(),
    };
    let env = spec_env_lines(ctx.environment);
    let exec_line = seq![
        spec_exec_start_line(ctx.program@, ctx.args@.map_values(|a: String| a@)),
    ];
    let restart = spec_restart_lines(config, disable_restart_on_failure);
    assert(lines_avoid_u(head));
    match ctx.working_directory {
        Some(w) => {
            assert(("WorkingDirectory="@ + w@)[0] == 'W');
            assert(lines_avoid_u(wd));
        },
        None => {},
    }
    match ctx.environment {
        Some(vars) => {
            assert forall|i: int| 0 <= i < env.len() implies (#[trigger] env[i]).len() > 0
                && env[i][0] != 'U' by {
                assert(env[i] == spec_env_line(vars@[i]));
                assert(spec_env_line(vars@[i])[0] == 'E');
            }
        },
        None => {},
    }
    assert(spec_exec_start_line(ctx.program@, ctx.args@.map_values(|a: String| a@))[0] == 'E');
    assert(lines_avoid_u(exec_line));
    if !disable_restart_on_failure {
        if config.restart != SystemdServiceRestartType::No {
            assert(("Restart="@ + spec_restart_str(config.restart))[0] == 'R');
        }
        match config.restart_sec {
            Some(x) => {
                assert(("RestartSec="@ + spec_decimal(x as nat))[0] == 'R');
            },
            None => {},
        }
        assert forall|i: int| 0 <= i < restart.len() implies (#[trigger] restart[i]).len() > 0
            && restart[i][0] != 'U' by {}
    }
    assert(lines_avoid_u(restart));
    assert(spec_user_lines(ctx.username, true) =~= Seq::<Seq<char>>::empty());
    lemma_avoid_u_concat(head, wd);
    lemma_avoid_u_concat(head + wd, env);
    lemma_avoid_u_concat(head + wd + env, exec_line);
    lemma_avoid_u_concat(head + wd + env + exec_line, restart);
    lemma_avoid_u_concat(head + wd + env + exec_line + restart, spec_user_lines(
        ctx.username,
        true,
    ));
}

proof fn lemma_install_block_avoids_u(autostart: bool)
    ensures
        lines_avoid_u(spec_install_block_lines(true, autostart)),
{
    reveal_strlit("[Install]");
    reveal_strlit("WantedBy=default.target");
}

/// A user-level install's generated text never contains a run-as-user
/// directive, even when the context names one: no line of the document begins
/// with the `User=` key.
pub proof fn lemma_user_level_no_user_directive(
    config: SystemdInstallConfig,
    description: Seq<char>,
    ctx: ServiceInstallCtx,
    autostart: bool,
    disable_restart_on_failure: bool,
    requires_network: bool,
)
    ensures
        no_user_directive(
            spec_unit_lines(config, description, ctx, true, autostart,
                disable_restart_on_failure, requires_network),
        ),
{
    let lines = spec_unit_lines(config, description, ctx, true, autostart,
        disable_restart_on_failure, requires_network);
    lemma_unit_block_avoids_u(config, description, requires_network);
    lemma_user_service_block_avoids_u(config, ctx, disable_restart_on_failure);
    lemma_install_block_avoids_u(autostart);
    lemma_avoid_u_concat(
        spec_unit_block_lines(config, description, requires_network),
        spec_service_block_lines(config, ctx, true, disable_restart_on_failure),
    );
    lemma_avoid_u_concat(
        spec_unit_block_lines(config, description, requires_network) + spec_service_block_lines(
            config,
            ctx,
            true,
            disable_restart_on_failure,
        ),
        spec_install_block_lines(true, autostart),
    );
    reveal_strlit("User=");
    assert forall|i: int| 0 <= i < lines.len() implies !is_user_directive(
        #[trigger] lines[i],
    ) by {
        assert(lines[i].len() > 0 && lines[i][0] != 'U');
        if is_user_directive(lines[i]) {
            assert(lines[i].subrange(0, 5)[0] == lines[i][0]);
            assert("User="@[0] == 'U');
        }
    }
}

} // verus!
