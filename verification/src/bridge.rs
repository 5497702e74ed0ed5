use vstd::prelude::*;
use vstd::string::*;

use crate::control::{
    brightness_refusal, is_failure, job_started, BrightnessJob, ScanResult, ScreenController,
};
use crate::protocol::{copy_statuses, opt_text, Command, CommandResult, DisplayStatus, Publication, Status};

verus! {

/// What the scan worker does before scanning.
#[derive(Debug)]
pub enum ScanWork {
    /// Nothing: report this command result, if any, with the scan.
    Report(Option<CommandResult>),
    /// Run this brightness job and report its result with the scan.
    Brightness(BrightnessJob),
}

/// A scan for the worker to run with the controller: rediscover the displays first when
/// `refresh` is set.
#[derive(Debug)]
pub struct ScanRequest {
    pub controller: ScreenController,
    pub refresh: bool,
    pub work: ScanWork,
}

/// The decision on a received command.
#[derive(Debug)]
pub struct CommandHandling {
    /// The controller, when it stays available.
    pub controller: Option<ScreenController>,
    /// The scan to start, which takes the controller.
    pub start_scan: Option<ScanRequest>,
    /// The result to publish at once, without a scan.
    pub immediate_response: Option<CommandResult>,
}

/// The error for a payload that is not a valid command.
pub open spec fn invalid_json_message(error: Seq<char>) -> Seq<char> {
    "invalid command JSON: "@ + error
}

/// The error for a command received while a scan runs.
pub open spec fn busy_message() -> Seq<char> {
    "DDC/CI scan already in progress; retry shortly"@
}

/// `c` is a success without per-display results.
pub open spec fn is_success(c: CommandResult) -> bool {
    &&& c.ok
    &&& c.error is None
    &&& c.results@.len() == 0
}

/// `req` is the scan that command `command` starts with `controller`.
pub open spec fn scan_for_command(req: ScanRequest, command: Command, controller: ScreenController) -> bool {
    &&& req.controller == controller
    &&& match command {
        Command::ListDisplays => req.refresh && (req.work matches ScanWork::Report(Some(c))
            && is_success(c)),
        Command::ScanDisplays => !req.refresh && (req.work matches ScanWork::Report(Some(c))
            && is_success(c)),
        Command::SetBrightness { display, brightness } => !req.refresh && match brightness_refusal(
            controller.displays(),
            display,
            brightness,
        ) {
            Some(m) => req.work matches ScanWork::Report(Some(c)) && is_failure(c, m),
            None => req.work matches ScanWork::Brightness(job) && job_started(
                job,
                controller.displays(),
                display,
                brightness,
            ),
        },
    }
}

/// A scan started for a command always reports that command's outcome: `list_displays` and
/// `scan_displays` report success (rediscovering only for `list_displays`), and
/// `set_brightness` reports either a refusal or the result of its brightness job.
pub proof fn lemma_command_scan_reports(req: ScanRequest, command: Command, controller: ScreenController)
    requires
        scan_for_command(req, command, controller),
    ensures
        !(req.work matches ScanWork::Report(None)),
        req.refresh <==> command is ListDisplays,
        (command is ListDisplays || command is ScanDisplays) ==> (req.work matches ScanWork::Report(
            Some(c),
        ) && c.ok && c.error is None && c.results@.len() == 0),
        command is SetBrightness ==> match req.work {
            ScanWork::Report(Some(c)) => !c.ok && c.error is Some,
            ScanWork::Report(None) => false,
            ScanWork::Brightness(job) => job.wf() && job.results().len() == 0,
        },
        req.controller == controller,
{
}

/// Decides on a received command, given the parsed payload (or the parser's error text) and
/// the controller if no scan is running. Invalid JSON and busy scans are answered at once;
/// any other command starts a scan that carries its result.
pub fn handle_command(parsed: Result<Command, String>, controller: Option<ScreenController>) -> (h:
    CommandHandling)
    ensures
        match parsed {
            Err(e) => h.controller == controller && h.start_scan is None && (h.immediate_response
                matches Some(c) && is_failure(c, invalid_json_message(e@))),
            Ok(command) => match controller {
                None => h.controller is None && h.start_scan is None && (h.immediate_response
                    matches Some(c) && is_failure(c, busy_message())),
                Some(ctl) => h.controller is None && h.immediate_response is None && (h.start_scan
                    matches Some(req) && scan_for_command(req, command, ctl)),
            },
        },
{
    let command = match parsed {
        Ok(command) => command,
        Err(error) => {
            let message = "invalid command JSON: ".to_owned().concat(error.as_str());
            return CommandHandling {
                controller,
                start_scan: None,
                immediate_response: Some(CommandResult::failure(message.as_str())),
            };
        },
    };
    let controller = match controller {
        Some(controller) => controller,
        None => {
            return CommandHandling {
                controller: None,
                start_scan: None,
                immediate_response: Some(
                    CommandResult::failure("DDC/CI scan already in progress; retry shortly"),
                ),
            };
        },
    };
    let (refresh, work) = match command {
        Command::ListDisplays => (true, ScanWork::Report(Some(CommandResult::success()))),
        Command::ScanDisplays => (false, ScanWork::Report(Some(CommandResult::success()))),
        Command::SetBrightness { display, brightness } => {
            match controller.set_brightness(&display, brightness) {
                Ok(job) => (false, ScanWork::Brightness(job)),
                Err(refused) => (false, ScanWork::Report(Some(refused))),
            }
        },
    };
    CommandHandling {
        controller: None,
        start_scan: Some(ScanRequest { controller, refresh, work }),
        immediate_response: None,
    }
}

/// What the service loop reacts to.
#[derive(Debug)]
pub enum BridgeEvent {
    /// The broker accepted the connection.
    Connected,
    /// A payload arrived on the command topic: the command, or the parser's error text.
    Command(Result<Command, String>),
    /// The scan worker finished.
    ScanFinished(ScanResult),
    /// The refresh interval elapsed.
    Tick,
}

/// What the service loop does in response, in order.
#[derive(Debug)]
pub enum BridgeAction {
    /// Publish this retained status document.
    PublishStatus(Status),
    /// Hand this scan to the worker.
    StartScan(ScanRequest),
    /// Publish these retained display messages.
    PublishDetails(Vec<Publication>),
}

/// The service's state between events: the controller while no scan runs, and the display
/// listing of the last scan.
#[derive(Debug)]
pub struct Bridge {
    controller: Option<ScreenController>,
    last_displays: Vec<DisplayStatus>,
}

/// `a` publishes the status `displays` with `command`.
pub open spec fn publishes_status(
    a: BridgeAction,
    displays: Seq<DisplayStatus>,
    command: Option<CommandResult>,
) -> bool {
    a matches BridgeAction::PublishStatus(s) && s.displays@ == displays && s.command == command
}

/// `a` publishes the status `displays` with a failed command result carrying `m`.
pub open spec fn replies_failure(a: BridgeAction, displays: Seq<DisplayStatus>, m: Seq<char>) -> bool {
    &&& a matches BridgeAction::PublishStatus(s)
    &&& s.displays@ == displays
    &&& s.command matches Some(c)
    &&& is_failure(c, m)
}

/// `a` starts a scan of `controller` that reports nothing but the scan.
pub open spec fn starts_plain_scan(a: BridgeAction, controller: ScreenController, refresh: bool) -> bool {
    a matches BridgeAction::StartScan(req) && req.controller == controller && req.refresh == refresh
        && req.work matches ScanWork::Report(None)
}

/// How many of `actions` start a scan.
pub open spec fn scans_started(actions: Seq<BridgeAction>) -> nat
    decreases actions.len(),
{
    if actions.len() == 0 {
        0
    } else {
        scans_started(actions.drop_last()) + if actions.last() is StartScan {
            1nat
        } else {
            0nat
        }
    }
}

impl Bridge {
    /// The controller, while no scan runs.
    pub closed spec fn controller(&self) -> Option<ScreenController> {
        self.controller
    }

    /// Whether no scan runs.
    pub open spec fn idle(&self) -> bool {
        self.controller() is Some
    }

    /// The display listing of the last finished scan.
    pub closed spec fn last_displays(&self) -> Seq<DisplayStatus> {
        self.last_displays@
    }

    /// The state at start-up: idle, no display listed yet.
    pub fn new(controller: ScreenController) -> (b: Bridge)
        ensures
            b.controller() == Some(controller),
            b.last_displays().len() == 0,
    {
        Bridge { controller: Some(controller), last_displays: Vec::new() }
    }

    /// Whether no scan runs.
    pub fn is_idle(&self) -> (b: bool)
        ensures
            b == self.idle(),
    {
        self.controller.is_some()
    }

    /// Reacts to one event.
    pub fn step(&mut self, event: BridgeEvent) -> (actions: Vec<BridgeAction>)
        ensures
            // At most one scan runs: a scan starts only from the idle state, which it leaves.
            scans_started(actions@) <= 1,
            scans_started(actions@) == 1 ==> old(self).idle() && !final(self).idle(),
            match event {
                BridgeEvent::Connected => {
                    &&& actions@.len() >= 1
                    &&& publishes_status(actions@[0], old(self).last_displays(), None)
                    &&& final(self).last_displays() == old(self).last_displays()
                    &&& match old(self).controller() {
                        Some(c) => actions@.len() == 2 && starts_plain_scan(actions@[1], c, true)
                            && final(self).controller() is None,
                        None => actions@.len() == 1 && final(self).controller() is None,
                    }
                },
                BridgeEvent::Command(parsed) => {
                    &&& final(self).last_displays() == old(self).last_displays()
                    &&& actions@.len() == 1
                    &&& match parsed {
                        Err(e) => final(self).controller() == old(self).controller()
                            && replies_failure(actions@[0], old(self).last_displays(), invalid_json_message(e@)),
                        Ok(command) => match old(self).controller() {
                            None => final(self).controller() is None
                                && replies_failure(actions@[0], old(self).last_displays(), busy_message()),
                            Some(ctl) => final(self).controller() is None
                                && (actions@[0] matches BridgeAction::StartScan(req)
                                && scan_for_command(req, command, ctl)),
                        },
                    }
                },
                BridgeEvent::ScanFinished(scan) => {
                    &&& final(self).controller() == Some(scan.controller)
                    &&& final(self).last_displays() == scan.displays@
                    &&& actions@.len() == 2
                    &&& publishes_status(actions@[0], scan.displays@, scan.command)
                    &&& actions@[1] matches BridgeAction::PublishDetails(ps) && ps@
                        == scan.publications@
                },
                BridgeEvent::Tick => {
                    &&& final(self).last_displays() == old(self).last_displays()
                    &&& final(self).controller() is None
                    &&& match old(self).controller() {
                        Some(c) => actions@.len() == 1 && starts_plain_scan(actions@[0], c, false),
                        None => actions@.len() == 0,
                    }
                },
            },
    {
        let mut actions: Vec<BridgeAction> = Vec::new();
        match event {
            BridgeEvent::Connected => {
                let status = Status { displays: copy_statuses(&self.last_displays), command: None };
                actions.push(BridgeAction::PublishStatus(status));
                let taken = self.controller.take();
                match taken {
                    Some(controller) => {
                        actions.push(
                            BridgeAction::StartScan(
                                ScanRequest { controller, refresh: true, work: ScanWork::Report(None) },
                            ),
                        );
                    },
                    None => {},
                }
            },
            BridgeEvent::Command(parsed) => {
                let taken = self.controller.take();
                let handling = handle_command(parsed, taken);
                self.controller = handling.controller;
                match handling.start_scan {
                    Some(req) => {
                        actions.push(BridgeAction::StartScan(req));
                    },
                    None => {
                        let status = Status {
                            displays: copy_statuses(&self.last_displays),
                            command: handling.immediate_response,
                        };
                        actions.push(BridgeAction::PublishStatus(status));
                    },
                }
            },
            BridgeEvent::ScanFinished(scan) => {
                self.last_displays = copy_statuses(&scan.displays);
                self.controller = Some(scan.controller);
                actions.push(
                    BridgeAction::PublishStatus(
                        Status { displays: scan.displays, command: scan.command },
                    ),
                );
                actions.push(BridgeAction::PublishDetails(scan.publications));
            },
            BridgeEvent::Tick => {
                let taken = self.controller.take();
                match taken {
                    Some(controller) => {
                        actions.push(
                            BridgeAction::StartScan(
                                ScanRequest { controller, refresh: false, work: ScanWork::Report(None) },
                            ),
                        );
                    },
                    None => {},
                }
            },
        }
        proof {
            reveal_with_fuel(scans_started, 3);
        }
        actions
    }
}

} // verus!
