//! Laws of the console session, stated over what each step does to its
//! inputs: the lines typed, the outcomes received, the current client.
use vstd::prelude::*;
use crate::command::{Command, GroupCommand, command_of, group_command_of};
use crate::session::{
    Action, EventView, Mode, Pending, SessionView, at, command_step, forwarding, message_lines,
    next, prompt, read_report_actions, update_report_actions, HELP,
};
use crate::text::{after_prefix, decimal, is_blank, lemma_decimal_round_trip, numeral_value};

verus! {

proof fn lemma_differ_at(a: Seq<char>, b: Seq<char>, i: int)
    requires
        0 <= i < a.len(),
        i < b.len(),
        a[i] != b[i],
    ensures
        a != b,
        !b.is_prefix_of(a),
{
    if b.is_prefix_of(a) {
        assert(a.subrange(0, b.len() as int)[i] == a[i]);
    }
}

proof fn lemma_after_own_prefix(p: Seq<char>, x: Seq<char>)
    ensures
        after_prefix(p + x, p) == Some(x),
{
    assert((p + x).subrange(0, p.len() as int) =~= p);
    assert((p + x).skip(p.len() as int) =~= x);
}

proof fn lemma_message_lines(msgs: Seq<(Seq<char>, Seq<char>)>)
    ensures
        message_lines(msgs).len() == 2 * msgs.len(),
        forall|k: int|
            0 <= k < msgs.len() ==> {
                &&& #[trigger] message_lines(msgs)[2 * k] == Action::Write(
                    "         "@ + msgs[k].0 + " from "@ + msgs[k].1 + "\n"@,
                )
                &&& message_lines(msgs)[2 * k + 1] == Action::<Seq<char>>::Flush
            },
    decreases msgs.len(),
{
    if msgs.len() > 0 {
        let init = msgs.drop_last();
        lemma_message_lines(init);
        let ml = message_lines(msgs);
        assert forall|k: int| 0 <= k < msgs.len() implies {
            &&& #[trigger] ml[2 * k] == Action::Write(
                "         "@ + msgs[k].0 + " from "@ + msgs[k].1 + "\n"@,
            )
            &&& ml[2 * k + 1] == Action::<Seq<char>>::Flush
        } by {
            if k < msgs.len() - 1 {
                assert(init[k] == msgs[k]);
                assert(ml[2 * k] == message_lines(init)[2 * k]);
                assert(ml[2 * k + 1] == message_lines(init)[2 * k + 1]);
            }
        }
    }
}

/// An update shows every delivered message, one line each, in delivery
/// order: after the notice (and, when there are messages, the heading), the
/// k-th line is `{message} from {author}` of the k-th message, whatever the
/// other messages are, followed by a flush; an empty line ends the report.
pub proof fn law_update_report_lists_every_message(msgs: Seq<(Seq<char>, Seq<char>)>)
    ensures
        ({
            let acts = update_report_actions(msgs);
            let head: int = if msgs.len() == 0 { 2 } else { 4 };
            &&& acts.len() == head + 2 * msgs.len() + 1
            &&& acts[0] == Action::Write(" >>> Updated client :)\n"@)
            &&& acts[1] == Action::<Seq<char>>::Flush
            &&& msgs.len() > 0 ==> acts[2] == Action::Write("     New messages:\n\n"@)
                && acts[3] == Action::<Seq<char>>::Flush
            &&& forall|k: int|
                0 <= k < msgs.len() ==> {
                    &&& #[trigger] acts[head + 2 * k] == Action::Write(
                        "         "@ + msgs[k].0 + " from "@ + msgs[k].1 + "\n"@,
                    )
                    &&& acts[head + 2 * k + 1] == Action::<Seq<char>>::Flush
                }
            &&& acts[acts.len() - 1] == Action::Write("\n"@)
        }),
{
    lemma_message_lines(msgs);
    let acts = update_report_actions(msgs);
    let head: int = if msgs.len() == 0 { 2 } else { 4 };
    let top = seq![Action::Write(" >>> Updated client :)\n"@), Action::<Seq<char>>::Flush];
    let heading: Seq<Action<Seq<char>>> = if msgs.len() > 0 {
        seq![Action::Write("     New messages:\n\n"@), Action::Flush]
    } else {
        seq![]
    };
    let ml = message_lines(msgs);
    assert(acts == top + heading + ml + seq![Action::Write("\n"@)]);
    assert((top + heading).len() == head);
    assert forall|k: int| 0 <= k < msgs.len() implies {
        &&& #[trigger] acts[head + 2 * k] == Action::Write(
            "         "@ + msgs[k].0 + " from "@ + msgs[k].1 + "\n"@,
        )
        &&& acts[head + 2 * k + 1] == Action::<Seq<char>>::Flush
    } by {
        assert(acts[head + 2 * k] == ml[2 * k]);
        assert(acts[head + 2 * k + 1] == ml[2 * k + 1]);
    }
}

/// The outcome of an update is shown by the update report, then, inside a
/// group, the prompt; the session goes back to where the update started.
pub proof fn law_updated_outcome(s: SessionView, g: Option<Seq<char>>, msgs: Seq<
    (Seq<char>, Seq<char>),
>)
    requires
        s.mode == Mode::Awaiting(Pending::Update(g)),
    ensures
        next(s, EventView::Updated(msgs)).1 == (match g {
            Some(_) => update_report_actions(msgs) + prompt(),
            None => update_report_actions(msgs),
        }),
        next(s, EventView::Updated(msgs)).0 == at(
            s.client,
            match g {
                Some(x) => Mode::InGroup(x),
                None => Mode::TopLevel,
            },
        ),
{
}

/// Reading a group's messages reports the count that came back: for
/// `Some(n)` the text is `{group} has received {d} messages` where `d` is a
/// decimal numeral (digits only, no leading zero but for `0`) whose value
/// is `n`; only `None` is reported as `{group} has no messages`. Then the
/// prompt, and the session is back in the group.
pub proof fn law_read_reports_the_count(s: SessionView, g: Seq<char>, count: Option<usize>)
    requires
        s.mode == Mode::Awaiting(Pending::Read(g)),
    ensures
        next(s, EventView::MessagesRead(count)).0 == at(s.client, Mode::InGroup(g)),
        next(s, EventView::MessagesRead(count)).1.len() == 4,
        next(s, EventView::MessagesRead(count)).1.subrange(1, 4) == seq![
            Action::<Seq<char>>::Flush,
        ] + prompt(),
        count matches Some(n) ==> (next(s, EventView::MessagesRead(count)).1[0] == Action::Write(
            g + " has received "@ + decimal(n as nat) + " messages\n\n"@,
        ) && numeral_value(decimal(n as nat)) == n && (decimal(n as nat)[0] == '0' ==> n == 0)
            && forall|i: int|
            0 <= i < decimal(n as nat).len() ==> '0' <= #[trigger] decimal(n as nat)[i] <= '9'),
        count is None ==> next(s, EventView::MessagesRead(count)).1[0] == Action::Write(
            g + " has no messages\n\n"@,
        ),
{
    if let Some(n) = count {
        lemma_decimal_round_trip(n as nat);
    }
    let acts = next(s, EventView::MessagesRead(count)).1;
    assert(acts == read_report_actions(g, count) + prompt());
    assert(acts.subrange(1, 4) =~= seq![Action::<Seq<char>>::Flush] + prompt());
}

/// `help` at the top level writes the help text, whether or not there is a
/// client, after forwarding the line; the session does not change.
pub proof fn law_help_writes_help_text(s: SessionView)
    requires
        s.mode is TopLevel,
    ensures
        next(s, EventView::Line("help"@)) == (
            s,
            seq![Action::Forward("help"@), Action::Write(HELP@), Action::<Seq<char>>::Flush],
        ),
{
    reveal_strlit("help");
    let l = "help"@;
    assert(!is_blank(l)) by {
        assert(l[0] == 'h');
    }
    assert(forwarding(l) + seq![Action::Write(HELP@), Action::<Seq<char>>::Flush] =~= seq![
        Action::Forward(l),
        Action::Write(HELP@),
        Action::<Seq<char>>::Flush,
    ]);
}

/// `load {name}` at the top level loads that client, whatever the current
/// client is: it asks for the load and waits for it; a successful load
/// makes the loaded client current and says so, a failed one keeps the
/// current client and reports the error.
pub proof fn law_load_any_client(s: SessionView, n: Seq<char>, e: Seq<char>)
    requires
        s.mode is TopLevel,
    ensures
        next(s, EventView::Line("load "@ + n)) == (
            at(s.client, Mode::Awaiting(Pending::Load(n))),
            seq![Action::Forward("load "@ + n), Action::LoadClient(n)],
        ),
        next(at(s.client, Mode::Awaiting(Pending::Load(n))), EventView::Loaded(Ok(()))) == (
            at(Some(n), Mode::TopLevel),
            seq![Action::Write("recovered client "@ + n + "\n\n"@), Action::<Seq<char>>::Flush],
        ),
        next(at(s.client, Mode::Awaiting(Pending::Load(n))), EventView::Loaded(Err(e))) == (
            at(s.client, Mode::TopLevel),
            seq![
                Action::Write("Error recovering client "@ + n + " : "@ + e + "\n\n"@),
                Action::<Seq<char>>::Flush,
            ],
        ),
{
    reveal_strlit("load ");
    reveal_strlit("help");
    reveal_strlit("register ");
    reveal_strlit("create kp");
    reveal_strlit("create group ");
    reveal_strlit("update");
    reveal_strlit("group ");
    reveal_strlit("reset");
    let l = "load "@ + n;
    assert(l[0] == 'l');
    lemma_differ_at(l, "help"@, 0);
    lemma_differ_at(l, "register "@, 0);
    lemma_differ_at(l, "create kp"@, 0);
    lemma_differ_at(l, "create group "@, 0);
    lemma_differ_at(l, "update"@, 0);
    lemma_differ_at(l, "group "@, 0);
    lemma_differ_at(l, "reset"@, 0);
    lemma_after_own_prefix("load "@, n);
    assert(command_of(l) == Command::Load(n));
    assert(!is_blank(l)) by {
        assert(l[0] == 'l');
    }
    assert(forwarding(l) + seq![Action::LoadClient(n)] =~= seq![
        Action::Forward(l),
        Action::LoadClient(n),
    ]);
}

/// `send {message}` inside a group sends the whole rest of the line,
/// verbatim, to that group, and waits for the outcome.
pub proof fn law_send_whole_message(s: SessionView, g: Seq<char>, m: Seq<char>)
    requires
        s.mode == Mode::InGroup(g),
    ensures
        group_command_of("send "@ + m) == GroupCommand::Send(m),
        next(s, EventView::Line("send "@ + m)) == (
            at(s.client, Mode::Awaiting(Pending::Send(g))),
            seq![Action::SendGroupMessage { message: m, group: g }],
        ),
{
    lemma_after_own_prefix("send "@, m);
}

/// Inside group `g`, `invite {client}` invites that client (the rest of the
/// line, verbatim) to `g` and says so, and `remove {client}` removes it and
/// says so; either way the session stays in the group and prompts again.
pub proof fn law_invite_and_remove(s: SessionView, g: Seq<char>, c: Seq<char>)
    requires
        s.mode == Mode::InGroup(g),
    ensures
        next(s, EventView::Line("invite "@ + c)) == (
            at(s.client, Mode::InGroup(g)),
            seq![
                Action::Invite { client: c, group: g },
                Action::Write("added "@ + c + " to group "@ + g + "\n\n"@),
                Action::Flush,
                Action::Write(" > "@),
                Action::<Seq<char>>::Flush,
            ],
        ),
        next(s, EventView::Line("remove "@ + c)) == (
            at(s.client, Mode::InGroup(g)),
            seq![
                Action::Remove { client: c, group: g },
                Action::Write("Removed "@ + c + " from group "@ + g + "\n\n"@),
                Action::Flush,
                Action::Write(" > "@),
                Action::<Seq<char>>::Flush,
            ],
        ),
{
    reveal_strlit("send ");
    reveal_strlit("invite ");
    reveal_strlit("remove ");
    let li = "invite "@ + c;
    let lr = "remove "@ + c;
    assert(li[0] == 'i');
    assert(lr[0] == 'r');
    lemma_differ_at(li, "send "@, 0);
    lemma_differ_at(lr, "send "@, 0);
    lemma_differ_at(lr, "invite "@, 0);
    lemma_after_own_prefix("invite "@, c);
    lemma_after_own_prefix("remove "@, c);
    assert(seq![
        Action::Invite { client: c, group: g },
        Action::Write("added "@ + c + " to group "@ + g + "\n\n"@),
        Action::<Seq<char>>::Flush,
    ] + prompt() =~= seq![
        Action::Invite { client: c, group: g },
        Action::Write("added "@ + c + " to group "@ + g + "\n\n"@),
        Action::Flush,
        Action::Write(" > "@),
        Action::<Seq<char>>::Flush,
    ]);
    assert(seq![
        Action::Remove { client: c, group: g },
        Action::Write("Removed "@ + c + " from group "@ + g + "\n\n"@),
        Action::<Seq<char>>::Flush,
    ] + prompt() =~= seq![
        Action::Remove { client: c, group: g },
        Action::Write("Removed "@ + c + " from group "@ + g + "\n\n"@),
        Action::Flush,
        Action::Write(" > "@),
        Action::<Seq<char>>::Flush,
    ]);
}

/// Inside group `g`, `read` reads the group's messages and waits for their
/// count; `update` says that it is updating, updates the client for that
/// group, and waits for the messages the update delivers.
pub proof fn law_group_read_and_update(s: SessionView, g: Seq<char>)
    requires
        s.mode == Mode::InGroup(g),
    ensures
        next(s, EventView::Line("read"@)) == (
            at(s.client, Mode::Awaiting(Pending::Read(g))),
            seq![Action::ReadMessages(g)],
        ),
        next(s, EventView::Line("update"@)) == (
            at(s.client, Mode::Awaiting(Pending::Update(Some(g)))),
            seq![Action::Print("Updating client"@), Action::UpdateClient(Some(g))],
        ),
{
    reveal_strlit("send ");
    reveal_strlit("invite ");
    reveal_strlit("remove ");
    reveal_strlit("read");
    reveal_strlit("update");
    lemma_differ_at("read"@, "send "@, 0);
    lemma_differ_at("read"@, "invite "@, 0);
    lemma_differ_at("read"@, "remove "@, 2);
    lemma_differ_at("update"@, "send "@, 0);
    lemma_differ_at("update"@, "invite "@, 0);
    lemma_differ_at("update"@, "remove "@, 0);
    lemma_differ_at("update"@, "read"@, 0);
}

/// The outcome of sending a message to `g` is reported, then the prompt:
/// on success `sent message to {g}`, on failure the error printed after
/// `Error sending group message: `; the session is back in the group.
pub proof fn law_sent_outcome(s: SessionView, g: Seq<char>, e: Seq<char>)
    requires
        s.mode == Mode::Awaiting(Pending::Send(g)),
    ensures
        next(s, EventView::MessageSent(Ok(()))) == (
            at(s.client, Mode::InGroup(g)),
            seq![
                Action::Write("sent message to "@ + g + "\n\n"@),
                Action::Flush,
                Action::Write(" > "@),
                Action::<Seq<char>>::Flush,
            ],
        ),
        next(s, EventView::MessageSent(Err(e))) == (
            at(s.client, Mode::InGroup(g)),
            seq![
                Action::Print("Error sending group message: "@ + e),
                Action::Write(" > "@),
                Action::<Seq<char>>::Flush,
            ],
        ),
{
    assert(seq![
        Action::Write("sent message to "@ + g + "\n\n"@),
        Action::<Seq<char>>::Flush,
    ] + prompt() =~= seq![
        Action::Write("sent message to "@ + g + "\n\n"@),
        Action::Flush,
        Action::Write(" > "@),
        Action::<Seq<char>>::Flush,
    ]);
    assert(seq![Action::Print("Error sending group message: "@ + e)] + prompt() =~= seq![
        Action::Print("Error sending group message: "@ + e),
        Action::Write(" > "@),
        Action::<Seq<char>>::Flush,
    ]);
}

/// Saving the current client, and turning on automatic saving, report the
/// identity of the client that came back, and return to the top level.
pub proof fn law_save_outcomes(s: SessionView, id: Seq<char>)
    ensures
        s.mode == Mode::<Seq<char>>::Awaiting(Pending::Save) ==> next(s, EventView::Identity(id))
            == (
            at(s.client, Mode::TopLevel),
            seq![Action::Write(" >>> client "@ + id + " state saved\n\n"@), Action::<Seq<char>>::Flush],
        ),
        s.mode == Mode::<Seq<char>>::Awaiting(Pending::AutoSave) ==> next(
            s,
            EventView::Identity(id),
        ) == (
            at(s.client, Mode::TopLevel),
            seq![
                Action::Write(" >>> autosave enabled for client "@ + id + " \n\n"@),
                Action::<Seq<char>>::Flush,
            ],
        ),
{
}

/// At the top level, `create kp` creates a key package for the current
/// client and `create group {name}` creates the group with that name (the
/// rest of the line, verbatim), each saying so; without a client each only
/// says that there is none. The line is forwarded first, and the session
/// stays at the top level.
pub proof fn law_create_needs_client(s: SessionView, g: Seq<char>)
    requires
        s.mode is TopLevel,
    ensures
        next(s, EventView::Line("create kp"@)) == (
            at(s.client, Mode::TopLevel),
            if s.client is Some {
                seq![
                    Action::Forward("create kp"@),
                    Action::CreateKeyPackage,
                    Action::Write(" >>> New key package created\n\n"@),
                    Action::<Seq<char>>::Flush,
                ]
            } else {
                seq![
                    Action::Forward("create kp"@),
                    Action::Write(" >>> No client to update :(\n\n"@),
                    Action::<Seq<char>>::Flush,
                ]
            },
        ),
        next(s, EventView::Line("create group "@ + g)) == (
            at(s.client, Mode::TopLevel),
            if s.client is Some {
                seq![
                    Action::Forward("create group "@ + g),
                    Action::CreateGroup(g),
                    Action::Write(" >>> Created group "@ + g + " :)\n\n"@),
                    Action::<Seq<char>>::Flush,
                ]
            } else {
                seq![
                    Action::Forward("create group "@ + g),
                    Action::Write(" >>> No client to create a group :(\n\n"@),
                    Action::<Seq<char>>::Flush,
                ]
            },
        ),
{
    reveal_strlit("help");
    reveal_strlit("register ");
    reveal_strlit("create kp");
    reveal_strlit("create group ");
    let k = "create kp"@;
    let l = "create group "@ + g;
    assert(l[0] == 'c' && l[7] == 'g');
    lemma_differ_at(k, "help"@, 0);
    lemma_differ_at(k, "register "@, 0);
    lemma_differ_at(l, "help"@, 0);
    lemma_differ_at(l, "register "@, 0);
    lemma_differ_at(l, "create kp"@, 7);
    lemma_after_own_prefix("create group "@, g);
    assert(!is_blank(k)) by {
        assert(k[0] == 'c');
    }
    assert(!is_blank(l)) by {
        assert(l[0] == 'c');
    }
    assert(command_of(k) == Command::<Seq<char>>::CreateKeyPackage);
    assert(command_of(l) == Command::CreateGroup(g));
    let ck = command_step(s.client, Command::<Seq<char>>::CreateKeyPackage).1;
    let cg = command_step(s.client, Command::CreateGroup(g)).1;
    assert(forwarding(k) + ck =~= seq![Action::Forward(k)] + ck);
    assert(forwarding(l) + cg =~= seq![Action::Forward(l)] + cg);
    if s.client is Some {
        assert(seq![Action::Forward(k)] + ck =~= seq![
            Action::Forward(k),
            Action::CreateKeyPackage,
            Action::Write(" >>> New key package created\n\n"@),
            Action::<Seq<char>>::Flush,
        ]);
        assert(seq![Action::Forward(l)] + cg =~= seq![
            Action::Forward(l),
            Action::CreateGroup(g),
            Action::Write(" >>> Created group "@ + g + " :)\n\n"@),
            Action::<Seq<char>>::Flush,
        ]);
    } else {
        assert(seq![Action::Forward(k)] + ck =~= seq![
            Action::Forward(k),
            Action::Write(" >>> No client to update :(\n\n"@),
            Action::<Seq<char>>::Flush,
        ]);
        assert(seq![Action::Forward(l)] + cg =~= seq![
            Action::Forward(l),
            Action::Write(" >>> No client to create a group :(\n\n"@),
            Action::<Seq<char>>::Flush,
        ]);
    }
}

/// At the top level, `update` updates the current client and waits for the
/// messages it delivers, and `group {name}` enters that group (the rest of
/// the line, verbatim) and prompts for a group command; without a client
/// neither happens, and a notice says that there is none. The line is
/// forwarded first.
pub proof fn law_update_and_enter_group(s: SessionView, g: Seq<char>)
    requires
        s.mode is TopLevel,
    ensures
        next(s, EventView::Line("update"@)) == if s.client is Some {
            (
                at(s.client, Mode::Awaiting(Pending::Update(None))),
                seq![Action::Forward("update"@), Action::UpdateClient(None)],
            )
        } else {
            (
                at(s.client, Mode::TopLevel),
                seq![Action::Forward("update"@), Action::Write(" >>> No client to update :(\n\n"@)],
            )
        },
        next(s, EventView::Line("group "@ + g)) == if s.client is Some {
            (
                at(s.client, Mode::InGroup(g)),
                seq![
                    Action::Forward("group "@ + g),
                    Action::Write(" > "@),
                    Action::<Seq<char>>::Flush,
                ],
            )
        } else {
            (
                at(s.client, Mode::TopLevel),
                seq![
                    Action::Forward("group "@ + g),
                    Action::Write(" >>> No client :(\n\n"@),
                    Action::<Seq<char>>::Flush,
                ],
            )
        },
{
    reveal_strlit("help");
    reveal_strlit("register ");
    reveal_strlit("create kp");
    reveal_strlit("create group ");
    reveal_strlit("update");
    reveal_strlit("group ");
    let u = "update"@;
    let l = "group "@ + g;
    assert(l[0] == 'g');
    lemma_differ_at(u, "help"@, 0);
    lemma_differ_at(u, "register "@, 0);
    lemma_differ_at(u, "create kp"@, 0);
    lemma_differ_at(u, "create group "@, 0);
    lemma_differ_at(l, "help"@, 0);
    lemma_differ_at(l, "register "@, 0);
    lemma_differ_at(l, "create kp"@, 0);
    lemma_differ_at(l, "create group "@, 0);
    lemma_differ_at(l, "update"@, 0);
    lemma_after_own_prefix("group "@, g);
    assert(!is_blank(u)) by {
        assert(u[0] == 'u');
    }
    assert(!is_blank(l)) by {
        assert(l[0] == 'g');
    }
    assert(command_of(u) == Command::<Seq<char>>::Update);
    assert(command_of(l) == Command::Group(g));
    let cu = command_step(s.client, Command::<Seq<char>>::Update).1;
    let cg = command_step(s.client, Command::Group(g)).1;
    assert(forwarding(u) + cu =~= seq![Action::Forward(u)] + cu);
    assert(forwarding(l) + cg =~= seq![Action::Forward(l)] + cg);
    if s.client is Some {
        assert(seq![Action::Forward(u)] + cu =~= seq![
            Action::Forward(u),
            Action::UpdateClient(None),
        ]);
        assert(seq![Action::Forward(l)] + cg =~= seq![
            Action::Forward(l),
            Action::Write(" > "@),
            Action::<Seq<char>>::Flush,
        ]);
    } else {
        assert(seq![Action::Forward(u)] + cu =~= seq![
            Action::Forward(u),
            Action::Write(" >>> No client to update :(\n\n"@),
        ]);
        assert(seq![Action::Forward(l)] + cg =~= seq![
            Action::Forward(l),
            Action::Write(" >>> No client :(\n\n"@),
            Action::<Seq<char>>::Flush,
        ]);
    }
}

/// At the top level, `save` saves the current client and `autosave` turns
/// on automatic saving for it, each waiting for the client's identity;
/// without a client neither happens, and a notice says that there is none.
/// The line is forwarded first.
pub proof fn law_save_and_autosave(s: SessionView)
    requires
        s.mode is TopLevel,
    ensures
        next(s, EventView::Line("save"@)) == if s.client is Some {
            (
                at(s.client, Mode::Awaiting(Pending::Save)),
                seq![Action::Forward("save"@), Action::SaveClient],
            )
        } else {
            (
                at(s.client, Mode::TopLevel),
                seq![
                    Action::Forward("save"@),
                    Action::Write(" >>> No client to update :(\n\n"@),
                    Action::<Seq<char>>::Flush,
                ],
            )
        },
        next(s, EventView::Line("autosave"@)) == if s.client is Some {
            (
                at(s.client, Mode::Awaiting(Pending::AutoSave)),
                seq![Action::Forward("autosave"@), Action::EnableAutoSave],
            )
        } else {
            (
                at(s.client, Mode::TopLevel),
                seq![
                    Action::Forward("autosave"@),
                    Action::Write(" >>> No client to update :(\n\n"@),
                    Action::<Seq<char>>::Flush,
                ],
            )
        },
{
    reveal_strlit("help");
    reveal_strlit("register ");
    reveal_strlit("create kp");
    reveal_strlit("create group ");
    reveal_strlit("update");
    reveal_strlit("group ");
    reveal_strlit("reset");
    reveal_strlit("load ");
    reveal_strlit("save");
    reveal_strlit("autosave");
    let v = "save"@;
    let a = "autosave"@;
    lemma_differ_at(v, "help"@, 0);
    lemma_differ_at(v, "register "@, 0);
    lemma_differ_at(v, "create kp"@, 0);
    lemma_differ_at(v, "create group "@, 0);
    lemma_differ_at(v, "update"@, 0);
    lemma_differ_at(v, "group "@, 0);
    lemma_differ_at(v, "reset"@, 0);
    lemma_differ_at(v, "load "@, 0);
    lemma_differ_at(a, "help"@, 0);
    lemma_differ_at(a, "register "@, 0);
    lemma_differ_at(a, "create kp"@, 0);
    lemma_differ_at(a, "create group "@, 0);
    lemma_differ_at(a, "update"@, 0);
    lemma_differ_at(a, "group "@, 0);
    lemma_differ_at(a, "reset"@, 0);
    lemma_differ_at(a, "load "@, 0);
    lemma_differ_at(a, "save"@, 0);
    assert(!is_blank(v)) by {
        assert(v[0] == 's');
    }
    assert(!is_blank(a)) by {
        assert(a[0] == 'a');
    }
    assert(command_of(v) == Command::<Seq<char>>::Save);
    assert(command_of(a) == Command::<Seq<char>>::AutoSave);
    let cv = command_step(s.client, Command::<Seq<char>>::Save).1;
    let ca = command_step(s.client, Command::<Seq<char>>::AutoSave).1;
    assert(forwarding(v) + cv =~= seq![Action::Forward(v)] + cv);
    assert(forwarding(a) + ca =~= seq![Action::Forward(a)] + ca);
    if s.client is Some {
        assert(seq![Action::Forward(v)] + cv =~= seq![Action::Forward(v), Action::SaveClient]);
        assert(seq![Action::Forward(a)] + ca =~= seq![
            Action::Forward(a),
            Action::EnableAutoSave,
        ]);
    } else {
        assert(seq![Action::Forward(v)] + cv =~= seq![
            Action::Forward(v),
            Action::Write(" >>> No client to update :(\n\n"@),
            Action::<Seq<char>>::Flush,
        ]);
        assert(seq![Action::Forward(a)] + ca =~= seq![
            Action::Forward(a),
            Action::Write(" >>> No client to update :(\n\n"@),
            Action::<Seq<char>>::Flush,
        ]);
    }
}

/// A top-level line that is none of the commands is only forwarded (when
/// it is not blank); nothing else happens.
pub proof fn law_other_top_level_line(s: SessionView, l: Seq<char>)
    requires
        s.mode is TopLevel,
        l != "help"@,
        !"register "@.is_prefix_of(l),
        l != "create kp"@,
        !"create group "@.is_prefix_of(l),
        l != "update"@,
        !"group "@.is_prefix_of(l),
        l != "reset"@,
        !"load "@.is_prefix_of(l),
        l != "save"@,
        l != "autosave"@,
    ensures
        next(s, EventView::Line(l)) == (at(s.client, Mode::TopLevel), forwarding(l)),
{
    assert(command_of(l) == Command::<Seq<char>>::Other);
    assert(forwarding(l) + Seq::<Action<Seq<char>>>::empty() =~= forwarding(l));
}

/// Inside a group, a line that is none of the group commands is answered
/// with a notice and the prompt, and the session stays in the group; the
/// end of input there flushes the console and prompts again.
pub proof fn law_unknown_group_line(s: SessionView, g: Seq<char>, l: Seq<char>)
    requires
        s.mode == Mode::InGroup(g),
        !"send "@.is_prefix_of(l),
        !"invite "@.is_prefix_of(l),
        !"remove "@.is_prefix_of(l),
        l != "read"@,
        l != "update"@,
        l != "exit"@,
    ensures
        next(s, EventView::Line(l)) == (
            at(s.client, Mode::InGroup(g)),
            seq![
                Action::Write(" >>> Unknown group command :(\n\n"@),
                Action::Flush,
                Action::Write(" > "@),
                Action::<Seq<char>>::Flush,
            ],
        ),
        next(s, EventView::EndOfInput) == (
            at(s.client, Mode::InGroup(g)),
            seq![Action::Flush, Action::Write(" > "@), Action::<Seq<char>>::Flush],
        ),
{
    assert(group_command_of(l) == GroupCommand::<Seq<char>>::Unknown);
    assert(seq![
        Action::Write(" >>> Unknown group command :(\n\n"@),
        Action::<Seq<char>>::Flush,
    ] + prompt() =~= seq![
        Action::Write(" >>> Unknown group command :(\n\n"@),
        Action::Flush,
        Action::Write(" > "@),
        Action::<Seq<char>>::Flush,
    ]);
    assert(seq![Action::<Seq<char>>::Flush] + prompt() =~= seq![
        Action::Flush,
        Action::Write(" > "@),
        Action::<Seq<char>>::Flush,
    ]);
}

} // verus!
