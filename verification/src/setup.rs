//! Setting the capture card up: which commands are given, in which order, and what follows from
//! the replies.
use crate::device::Endpoint;
use crate::device::DS;
use vstd::prelude::*;

verus! {

/// What the program asks of the device, or of the host, to set the device up.
#[derive(Debug, Clone, Copy, PartialEq, Eq, Structural)]
pub enum UsbCommand {
    /// Does a kernel driver hold the interface?
    QueryKernelDriver { iface: u8 },
    DetachKernelDriver { iface: u8 },
    SetActiveConfiguration { config: u8 },
    ClaimInterface { iface: u8 },
    SetAlternateSetting { iface: u8, setting: u8 },
}

/// How far the device has been set up: the command that is due, or how it ended.
#[derive(Debug, Clone, Copy, PartialEq, Eq, Structural)]
pub enum Setup {
    Query,
    Detach,
    Activate,
    Claim,
    Alternate,
    Done,
    Failed,
}

/// The command that is due, if any is.
pub open spec fn due_command(endpoint: Endpoint, stage: Setup) -> Option<UsbCommand> {
    match stage {
        Setup::Query => Some(UsbCommand::QueryKernelDriver { iface: endpoint.iface }),
        Setup::Detach => Some(UsbCommand::DetachKernelDriver { iface: endpoint.iface }),
        Setup::Activate => Some(UsbCommand::SetActiveConfiguration { config: endpoint.config }),
        Setup::Claim => Some(UsbCommand::ClaimInterface { iface: endpoint.iface }),
        Setup::Alternate => Some(
            UsbCommand::SetAlternateSetting { iface: endpoint.iface, setting: endpoint.setting },
        ),
        Setup::Done => None,
        Setup::Failed => None,
    }
}

/// Where the reply to the command that is due leads. A reply is `Ok` with an answer, which only
/// the query gives, or `Err`. A query that fails counts as answered in the negative; every other
/// command has to succeed.
pub open spec fn next_stage(stage: Setup, reply: Result<bool, ()>) -> Setup {
    match stage {
        Setup::Query => if reply == Ok::<bool, ()>(true) {
            Setup::Detach
        } else {
            Setup::Activate
        },
        Setup::Done => Setup::Done,
        _ => if reply is Err {
            Setup::Failed
        } else {
            match stage {
                Setup::Detach => Setup::Activate,
                Setup::Activate => Setup::Claim,
                Setup::Claim => Setup::Alternate,
                Setup::Alternate => Setup::Done,
                _ => Setup::Failed,
            }
        },
    }
}

/// What the reply to the command that is due says about a kernel driver: one has been detached,
/// there was none, or, after any other command, what was known before.
pub open spec fn driver_detached(stage: Setup, reply: Result<bool, ()>, before: bool) -> bool {
    match stage {
        Setup::Query => if reply == Ok::<bool, ()>(true) {
            before
        } else {
            false
        },
        Setup::Detach => if reply is Ok {
            true
        } else {
            before
        },
        _ => before,
    }
}

impl DS {
    /// The command that is due, if any is.
    pub fn setup_command(&self, stage: Setup) -> (command: Option<UsbCommand>)
        ensures
            command == due_command(self.endpoint, stage),
            stage is Query ==> command == Some(
                UsbCommand::QueryKernelDriver { iface: self.endpoint.iface },
            ),
            stage is Detach ==> command == Some(
                UsbCommand::DetachKernelDriver { iface: self.endpoint.iface },
            ),
            stage is Activate ==> command == Some(
                UsbCommand::SetActiveConfiguration { config: self.endpoint.config },
            ),
            stage is Claim ==> command == Some(
                UsbCommand::ClaimInterface { iface: self.endpoint.iface },
            ),
            stage is Alternate ==> command == Some(
                UsbCommand::SetAlternateSetting {
                    iface: self.endpoint.iface,
                    setting: self.endpoint.setting,
                },
            ),
            command is None <==> stage is Done || stage is Failed,
    {
        let endpoint = self.endpoint;
        match stage {
            Setup::Query => Some(UsbCommand::QueryKernelDriver { iface: endpoint.iface }),
            Setup::Detach => Some(UsbCommand::DetachKernelDriver { iface: endpoint.iface }),
            Setup::Activate => Some(
                UsbCommand::SetActiveConfiguration { config: endpoint.config },
            ),
            Setup::Claim => Some(UsbCommand::ClaimInterface { iface: endpoint.iface }),
            Setup::Alternate => Some(
                UsbCommand::SetAlternateSetting {
                    iface: endpoint.iface,
                    setting: endpoint.setting,
                },
            ),
            Setup::Done => None,
            Setup::Failed => None,
        }
    }

    /// Takes the reply to the command that was due and tells the next stage.
    pub fn configure(&mut self, stage: Setup, reply: Result<bool, ()>) -> (next: Setup)
        ensures
            next == next_stage(stage, reply),
            final(self).endpoint == old(self).endpoint,
            final(self).config.using_kernel_driver == driver_detached(
                stage,
                reply,
                old(self).config.using_kernel_driver,
            ),
            stage is Query ==> next == if reply == Ok::<bool, ()>(true) {
                Setup::Detach
            } else {
                Setup::Activate
            },
            reply is Ok ==> match stage {
                Setup::Query => true,
                Setup::Detach => next is Activate,
                Setup::Activate => next is Claim,
                Setup::Claim => next is Alternate,
                Setup::Alternate => next is Done,
                Setup::Done => next is Done,
                Setup::Failed => next is Failed,
            },
            reply is Err && !(stage is Query) && !(stage is Done) ==> next is Failed,
            stage is Done ==> next is Done,
            stage is Detach && reply is Ok ==> final(self).config.using_kernel_driver,
            stage is Query && reply != Ok::<bool, ()>(true)
                ==> !final(self).config.using_kernel_driver,
            !(stage is Detach && reply is Ok) && !(stage is Query && reply != Ok::<bool, ()>(true))
                ==> final(self).config.using_kernel_driver
                == old(self).config.using_kernel_driver,
    {
        match (stage, reply) {
            (Setup::Query, Ok(true)) => Setup::Detach,
            (Setup::Query, _) => {
                self.config.using_kernel_driver = false;
                Setup::Activate
            },
            (Setup::Done, _) => Setup::Done,
            (_, Err(_)) => Setup::Failed,
            (Setup::Detach, Ok(_)) => {
                self.config.using_kernel_driver = true;
                Setup::Activate
            },
            (Setup::Activate, Ok(_)) => Setup::Claim,
            (Setup::Claim, Ok(_)) => Setup::Alternate,
            (Setup::Alternate, Ok(_)) => Setup::Done,
            (Setup::Failed, Ok(_)) => Setup::Failed,
        }
    }
}

/// The stage and the kernel driver flag after a number of replies.
pub open spec fn setup_run(stage: Setup, driver: bool, replies: Seq<Result<bool, ()>>) -> (
    Setup,
    bool,
)
    decreases replies.len(),
{
    if replies.len() == 0 {
        (stage, driver)
    } else {
        setup_run(
            next_stage(stage, replies[0]),
            driver_detached(stage, replies[0], driver),
            replies.drop_first(),
        )
    }
}

/// The commands given while a number of replies come in.
pub open spec fn setup_commands(
    endpoint: Endpoint,
    stage: Setup,
    replies: Seq<Result<bool, ()>>,
) -> Seq<UsbCommand>
    decreases replies.len(),
{
    if replies.len() == 0 {
        Seq::empty()
    } else {
        match due_command(endpoint, stage) {
            Some(command) => seq![command] + setup_commands(
                endpoint,
                next_stage(stage, replies[0]),
                replies.drop_first(),
            ),
            None => Seq::empty(),
        }
    }
}

/// Setting up comes to an end within five replies, and stays there. It succeeds if and only if
/// every command but the query does, and then the flag tells whether a kernel driver held the
/// interface.
pub proof fn setup_ends(driver: bool, replies: Seq<Result<bool, ()>>)
    requires
        replies.len() >= 5,
    ensures
        ({
            let held = replies[0] == Ok::<bool, ()>(true);
            let (stage, detached) = setup_run(Setup::Query, driver, replies);
            &&& stage is Done || stage is Failed
            &&& stage is Done <==> (replies[1] is Ok && replies[2] is Ok && replies[3] is Ok && (
            held ==> replies[4] is Ok))
            &&& stage is Done ==> detached == held
        }),
{
    reveal_with_fuel(setup_run, 6);
    let rest = replies.drop_first().drop_first().drop_first().drop_first().drop_first();
    assert(replies.drop_first().drop_first().drop_first().drop_first()[0] == replies[4]);
    assert(replies.drop_first().drop_first().drop_first()[0] == replies[3]);
    assert(replies.drop_first().drop_first()[0] == replies[2]);
    assert(replies.drop_first()[0] == replies[1]);
    setup_end_is_final(Setup::Done, false, rest);
    setup_end_is_final(Setup::Done, true, rest);
    setup_end_is_final(Setup::Failed, driver, rest);
    setup_end_is_final(Setup::Failed, false, rest);
    setup_end_is_final(Setup::Failed, true, rest);
}

/// Once setting up has ended, nothing changes any more and no command is given.
pub proof fn setup_end_is_final(stage: Setup, driver: bool, replies: Seq<Result<bool, ()>>)
    requires
        stage is Done || stage is Failed,
    ensures
        setup_run(stage, driver, replies) == (stage, driver),
        forall|endpoint: Endpoint|
            #[trigger] setup_commands(endpoint, stage, replies) == Seq::<UsbCommand>::empty(),
    decreases replies.len(),
{
    if replies.len() > 0 {
        setup_end_is_final(stage, driver, replies.drop_first());
    }
}

/// The commands of a successful set-up, in order: the kernel driver, if one holds the interface,
/// is detached first; then the configuration is activated, the interface claimed and its
/// alternate setting chosen.
pub proof fn successful_setup_commands(
    endpoint: Endpoint,
    driver: bool,
    replies: Seq<Result<bool, ()>>,
)
    requires
        setup_run(Setup::Query, driver, replies).0 is Done,
    ensures
        ({
            let iface = endpoint.iface;
            let query = UsbCommand::QueryKernelDriver { iface };
            let detach = UsbCommand::DetachKernelDriver { iface };
            let activate = UsbCommand::SetActiveConfiguration { config: endpoint.config };
            let claim = UsbCommand::ClaimInterface { iface };
            let alternate = UsbCommand::SetAlternateSetting { iface, setting: endpoint.setting };
            setup_commands(endpoint, Setup::Query, replies) == if replies[0] == Ok::<bool, ()>(
                true,
            ) {
                seq![query, detach, activate, claim, alternate]
            } else {
                seq![query, activate, claim, alternate]
            }
        }),
{
    reveal_with_fuel(setup_run, 6);
    reveal_with_fuel(setup_commands, 6);
    let r1 = replies.drop_first();
    let r2 = r1.drop_first();
    let r3 = r2.drop_first();
    let r4 = r3.drop_first();
    let r5 = r4.drop_first();
    setup_end_is_final(Setup::Failed, driver, r2);
    setup_end_is_final(Setup::Failed, false, r2);
    setup_end_is_final(Setup::Failed, false, r3);
    setup_end_is_final(Setup::Failed, true, r3);
    setup_end_is_final(Setup::Failed, false, r4);
    setup_end_is_final(Setup::Failed, true, r4);
    setup_end_is_final(Setup::Failed, true, r5);
    setup_end_is_final(Setup::Done, false, r4);
    setup_end_is_final(Setup::Done, true, r5);
    let iface = endpoint.iface;
    let query = UsbCommand::QueryKernelDriver { iface };
    let detach = UsbCommand::DetachKernelDriver { iface };
    let activate = UsbCommand::SetActiveConfiguration { config: endpoint.config };
    let claim = UsbCommand::ClaimInterface { iface };
    let alternate = UsbCommand::SetAlternateSetting { iface, setting: endpoint.setting };
    if replies[0] == Ok::<bool, ()>(true) {
        assert(setup_commands(endpoint, Setup::Query, replies) =~= seq![
            query,
            detach,
            activate,
            claim,
            alternate,
        ]);
    } else {
        assert(setup_commands(endpoint, Setup::Query, replies) =~= seq![
            query,
            activate,
            claim,
            alternate,
        ]);
    }
}

} // verus!
