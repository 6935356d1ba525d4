//! One flash attempt as a state machine. The caller does the outside work
//! (reading files, writing the tree, talking to the device) and reports each
//! outcome as an event; `step` decides what happens next.

use vstd::prelude::*;
use crate::archive::{ExtractOp, ExtractionPlan, is_plan_of, ops_of, plan_extraction};
use crate::device::{
    ChipRevision, ConnectionError, DeviceTarget, MINIMUM_REVISION, check_revision, connection_error_message,
    is_standard_target, standard_target,
};
use crate::image::{
    CrystalFrequency, FlashDataDescriptor, FlashGeometry, ImageError, build_payload, header_verdict,
    image_error_message,
};
use crate::state::FlasherState;
use crate::text::{joined, option_text};

verus! {

/// The stages of a flash attempt.
#[derive(Debug, Clone, Copy, PartialEq, Eq, Structural)]
pub enum Stage {
    Idle,
    Extracting,
    Connecting,
    Building,
    Transferring,
    Done,
    Failed,
}

/// Why a flash attempt ended without flashing.
#[derive(Debug, PartialEq, Eq)]
pub enum FlashError {
    /// The package could not be read or unpacked; the text says why.
    Archive(String),
    /// No session with a suitable device came about.
    Connection(ConnectionError),
    /// The firmware image is missing or malformed.
    Image(ImageError),
    /// The transfer to the device failed; the text says why.
    Transfer(String),
}

/// The message of an error, as the status line shows it.
pub open spec fn flash_error_message(error: FlashError) -> Seq<char> {
    match error {
        FlashError::Archive(reason) => reason@,
        FlashError::Connection(inner) => connection_error_message(inner),
        FlashError::Image(inner) => image_error_message(inner),
        FlashError::Transfer(reason) => reason@,
    }
}

impl FlashError {
    /// The message of this error.
    pub fn message(&self) -> (text: String)
        ensures
            text@ == flash_error_message(*self),
    {
        match self {
            FlashError::Archive(reason) => reason.clone(),
            FlashError::Connection(inner) => inner.message(),
            FlashError::Image(inner) => inner.message(),
            FlashError::Transfer(reason) => reason.clone(),
        }
    }
}

/// What a flash attempt is configured with.
#[derive(Debug, Clone, Copy, PartialEq, Eq, Structural)]
pub struct FlashConfig {
    /// The flash geometry written into the payload.
    pub geometry: FlashGeometry,
    /// The lowest chip revision accepted, as `major * 100 + minor`.
    pub minimum_revision: u16,
}

impl FlashConfig {
    /// The configuration used unless the caller chooses another: the standard
    /// geometry, and every chip revision accepted.
    pub fn standard() -> (config: FlashConfig)
        ensures
            config.geometry == FlashGeometry::standard_spec(),
            config.minimum_revision == MINIMUM_REVISION,
    {
        FlashConfig { geometry: FlashGeometry::standard(), minimum_revision: MINIMUM_REVISION }
    }
}

/// Where a flash attempt stands, with what it has to remember.
#[derive(Debug, PartialEq, Eq)]
pub enum Phase {
    /// No attempt is running.
    Idle,
    /// The package file is being read; `port` is the port selected when the
    /// attempt began.
    LoadingPackage { port: String },
    /// The steps of the plan are being performed; `fault` is why the plan
    /// stops short, if it does.
    WritingTree { port: String, fault: Option<String> },
    /// The session with the device is being opened.
    OpeningSession,
    /// The device is being asked for its crystal frequency.
    QueryingCrystal,
    /// The firmware file is being read from the extracted tree.
    ReadingImage { crystal: CrystalFrequency },
    /// The payload is being written to the device.
    Transferring,
    /// The firmware has been flashed.
    Done,
    /// The attempt has failed.
    Failed { error: FlashError },
}

impl Phase {
    /// The stage that a phase belongs to.
    pub open spec fn stage_spec(self) -> Stage {
        match self {
            Phase::Idle => Stage::Idle,
            Phase::LoadingPackage { .. } => Stage::Extracting,
            Phase::WritingTree { .. } => Stage::Extracting,
            Phase::OpeningSession => Stage::Connecting,
            Phase::QueryingCrystal => Stage::Connecting,
            Phase::ReadingImage { .. } => Stage::Building,
            Phase::Transferring => Stage::Transferring,
            Phase::Done => Stage::Done,
            Phase::Failed { .. } => Stage::Failed,
        }
    }

    /// Whether a new attempt can begin: none is running.
    pub open spec fn at_rest(self) -> bool {
        self is Idle || self is Done || self is Failed
    }

    /// The stage that this phase belongs to.
    pub fn stage(&self) -> (stage: Stage)
        ensures
            stage == self.stage_spec(),
    {
        match self {
            Phase::Idle => Stage::Idle,
            Phase::LoadingPackage { .. } => Stage::Extracting,
            Phase::WritingTree { .. } => Stage::Extracting,
            Phase::OpeningSession => Stage::Connecting,
            Phase::QueryingCrystal => Stage::Connecting,
            Phase::ReadingImage { .. } => Stage::Building,
            Phase::Transferring => Stage::Transferring,
            Phase::Done => Stage::Done,
            Phase::Failed { .. } => Stage::Failed,
        }
    }
}

/// What the caller reports.
#[derive(Debug, PartialEq, Eq)]
pub enum Event {
    /// The user asked for the firmware to be flashed.
    FlashRequested,
    /// The extraction root exists and the package file was read: its bytes.
    /// Otherwise, why not.
    ArchiveRead(Result<Vec<u8>, String>),
    /// Every step of the plan was performed, or why the first failing one
    /// failed.
    TreeWritten(Result<(), String>),
    /// The session is open and the device reported its revision, or why not.
    SessionOpened(Result<ChipRevision, String>),
    /// The device reported its crystal frequency, or why not.
    CrystalReported(Result<CrystalFrequency, String>),
    /// The bytes of the firmware file, or why it could not be read.
    ImageRead(Result<Vec<u8>, String>),
    /// The payload was written to the device, or why not.
    Transferred(Result<(), String>),
}

/// What the caller is to do next.
#[derive(Debug, PartialEq, Eq)]
pub enum Action {
    /// Nothing: no attempt is running. A session that is still open is closed.
    Rest,
    /// Create the extraction root beside `package`, then read the package
    /// file, and report `ArchiveRead`.
    ReadArchive { package: String },
    /// Perform the steps in order below the extraction root, stop at the
    /// first that fails, and report `TreeWritten`.
    WriteTree { ops: Vec<ExtractOp> },
    /// Open the session with the device, ask for its revision, and report
    /// `SessionOpened`.
    OpenSession { target: DeviceTarget },
    /// Ask the device for its crystal frequency and report `CrystalReported`.
    QueryCrystal,
    /// Read the file `name` at the extraction root and report `ImageRead`.
    ReadImage { name: String },
    /// Write the payload to the device and report `Transferred`.
    Transfer { payload: FlashDataDescriptor },
}

/// The status line while nothing can be done for want of a selection.
pub open spec fn prompt_text() -> Seq<char> {
    "Please select both ZIP file and port."@
}

/// The status line during extraction.
pub open spec fn extracting_text() -> Seq<char> {
    "Extracting ZIP file..."@
}

/// The status line from the connection to the end of the transfer.
pub open spec fn flashing_text() -> Seq<char> {
    "Flashing firmware..."@
}

/// The status line after a successful transfer.
pub open spec fn success_text() -> Seq<char> {
    "Firmware flashed successfully!"@
}

/// The status line after a failed extraction.
pub open spec fn extraction_failure_text(error: FlashError) -> Seq<char> {
    "Error extracting ZIP: "@ + flash_error_message(error)
}

/// The status line after a failure from the connection on.
pub open spec fn flash_failure_text(error: FlashError) -> Seq<char> {
    "Error flashing firmware: "@ + flash_error_message(error)
}

/// The name of the firmware image at the root of a package.
pub open spec fn firmware_name() -> Seq<char> {
    "firmware.elf"@
}

/// The attempt fails during extraction for `reason`.
pub open spec fn extraction_fails(reason: Seq<char>, next: Phase, status: Seq<char>, action: Action) -> bool {
    &&& next matches Phase::Failed { error: FlashError::Archive(text) }
    &&& text@ == reason
    &&& status == "Error extracting ZIP: "@ + reason
    &&& action is Rest
}

/// The attempt fails after extraction with `error`.
pub open spec fn flashing_fails(message: Seq<char>, next: Phase, status: Seq<char>, action: Action) -> bool {
    &&& next matches Phase::Failed { error }
    &&& flash_error_message(error) == message
    &&& status == "Error flashing firmware: "@ + message
    &&& action is Rest
}

/// What an event does in a phase that does not await it: nothing.
pub open spec fn ignored(phase: Phase, before: Seq<char>, next: Phase, status: Seq<char>, action: Action) -> bool {
    next == phase && status == before && action is Rest
}

/// The rule of the state machine: from `phase`, with the selection and the
/// status line of `before`, `event` leads to `next` with the status line
/// `status` and asks the caller for `action`.
pub open spec fn transition(
    phase: Phase,
    package: Option<Seq<char>>,
    port: Option<Seq<char>>,
    before: Seq<char>,
    config: FlashConfig,
    event: Event,
    next: Phase,
    status: Seq<char>,
    action: Action,
) -> bool {
    match event {
        Event::FlashRequested => if !phase.at_rest() {
            ignored(phase, before, next, status, action)
        } else if package is Some && port is Some {
            &&& next matches Phase::LoadingPackage { port: chosen }
            &&& chosen@ == port->0
            &&& status == extracting_text()
            &&& action matches Action::ReadArchive { package: path }
            &&& path@ == package->0
        } else {
            next is Idle && status == prompt_text() && action is Rest
        },
        Event::ArchiveRead(outcome) => match phase {
            Phase::LoadingPackage { port: chosen } => match outcome {
                Ok(bytes) => {
                    &&& next matches Phase::WritingTree { port: kept, fault }
                    &&& kept@ == chosen@
                    &&& status == before
                    &&& action matches Action::WriteTree { ops }
                    &&& is_plan_of(bytes@, ops_of(ops@), option_text(fault))
                },
                Err(reason) => extraction_fails(reason@, next, status, action),
            },
            _ => ignored(phase, before, next, status, action),
        },
        Event::TreeWritten(outcome) => match phase {
            Phase::WritingTree { port: chosen, fault } => match (outcome, fault) {
                (Err(reason), _) => extraction_fails(reason@, next, status, action),
                (Ok(_), Some(reason)) => extraction_fails(reason@, next, status, action),
                (Ok(_), None) => {
                    &&& next is OpeningSession
                    &&& status == flashing_text()
                    &&& action matches Action::OpenSession { target }
                    &&& is_standard_target(target, chosen@, config.minimum_revision)
                },
            },
            _ => ignored(phase, before, next, status, action),
        },
        Event::SessionOpened(outcome) => match phase {
            Phase::OpeningSession => match outcome {
                Ok(found) => if found.number() >= config.minimum_revision {
                    next is QueryingCrystal && status == before && action is QueryCrystal
                } else {
                    &&& next == Phase::Failed {
                        error: FlashError::Connection(
                            ConnectionError::Incompatible { minimum: config.minimum_revision, found },
                        ),
                    }
                    &&& status == flash_failure_text(next->error)
                    &&& action is Rest
                },
                Err(reason) => {
                    &&& next matches Phase::Failed { error: FlashError::Connection(ConnectionError::Unavailable(_)) }
                    &&& flashing_fails(reason@, next, status, action)
                },
            },
            _ => ignored(phase, before, next, status, action),
        },
        Event::CrystalReported(outcome) => match phase {
            Phase::QueryingCrystal => match outcome {
                Ok(crystal) => {
                    &&& next == Phase::ReadingImage { crystal }
                    &&& status == before
                    &&& action matches Action::ReadImage { name }
                    &&& name@ == firmware_name()
                },
                Err(reason) => {
                    &&& next matches Phase::Failed { error: FlashError::Connection(ConnectionError::Unavailable(_)) }
                    &&& flashing_fails(reason@, next, status, action)
                },
            },
            _ => ignored(phase, before, next, status, action),
        },
        Event::ImageRead(outcome) => match phase {
            Phase::ReadingImage { crystal } => match outcome {
                Ok(bytes) => match header_verdict(bytes@) {
                    Ok(class) => {
                        &&& next is Transferring
                        &&& status == before
                        &&& action matches Action::Transfer { payload }
                        &&& payload.image_bytes() == bytes@
                        &&& payload.image_class() == class
                        &&& payload.flash_geometry() == config.geometry
                        &&& payload.crystal_frequency() == crystal
                    },
                    Err(fault) => {
                        &&& next == Phase::Failed { error: FlashError::Image(ImageError::Malformed(fault)) }
                        &&& status == flash_failure_text(next->error)
                        &&& action is Rest
                    },
                },
                Err(reason) => {
                    &&& next matches Phase::Failed { error: FlashError::Image(ImageError::Unreadable(_)) }
                    &&& flashing_fails(reason@, next, status, action)
                },
            },
            _ => ignored(phase, before, next, status, action),
        },
        Event::Transferred(outcome) => match phase {
            Phase::Transferring => match outcome {
                Ok(_) => next is Done && status == success_text() && action is Rest,
                Err(reason) => {
                    &&& next matches Phase::Failed { error: FlashError::Transfer(_) }
                    &&& flashing_fails(reason@, next, status, action)
                },
            },
            _ => ignored(phase, before, next, status, action),
        },
    }
}

/// Ends the attempt during extraction.
fn fail_extraction(reason: String, state: &mut FlasherState) -> (r: (Phase, Action))
    ensures
        extraction_fails(reason@, r.0, final(state).status_text(), r.1),
        untouched(*old(state), *final(state)),
{
    state.set_status(joined("Error extracting ZIP: ", reason.as_str()));
    (Phase::Failed { error: FlashError::Archive(reason) }, Action::Rest)
}

/// Ends the attempt after extraction.
fn fail_flashing(error: FlashError, state: &mut FlasherState) -> (r: (Phase, Action))
    ensures
        r.0 == (Phase::Failed { error }),
        flashing_fails(flash_error_message(error), r.0, final(state).status_text(), r.1),
        untouched(*old(state), *final(state)),
{
    let message: String = error.message();
    state.set_status(joined("Error flashing firmware: ", message.as_str()));
    (Phase::Failed { error }, Action::Rest)
}

/// What no step changes: the selection, the progress and the known ports.
pub open spec fn untouched(before: FlasherState, after: FlasherState) -> bool {
    &&& after.package_path() == before.package_path()
    &&& after.port_name() == before.port_name()
    &&& after.progress_percent() == before.progress_percent()
    &&& after.known_ports() == before.known_ports()
}

/// Begins an attempt, if a package and a port are selected.
fn begin(state: &mut FlasherState, config: &FlashConfig) -> (r: (Phase, Action))
    ensures
        transition(
            Phase::Idle,
            old(state).package_path(),
            old(state).port_name(),
            old(state).status_text(),
            *config,
            Event::FlashRequested,
            r.0,
            final(state).status_text(),
            r.1,
        ),
        untouched(*old(state), *final(state)),
{
    let selection: Option<(String, String)> = match (state.package(), state.port()) {
        (Some(package), Some(port)) => Some((package.clone(), port.clone())),
        _ => None,
    };
    match selection {
        Some((package, port)) => {
            state.set_status(String::from_str("Extracting ZIP file..."));
            (Phase::LoadingPackage { port }, Action::ReadArchive { package })
        },
        None => {
            state.set_status(String::from_str("Please select both ZIP file and port."));
            (Phase::Idle, Action::Rest)
        },
    }
}

/// Takes the attempt one step further: from `phase` and what the caller
/// reports to the next phase and what the caller is to do. Only the status
/// line of `state` changes. An event that `phase` does not await changes
/// nothing.
pub fn step(phase: Phase, state: &mut FlasherState, config: &FlashConfig, event: Event) -> (r: (Phase, Action))
    ensures
        transition(
            phase,
            old(state).package_path(),
            old(state).port_name(),
            old(state).status_text(),
            *config,
            event,
            r.0,
            final(state).status_text(),
            r.1,
        ),
        untouched(*old(state), *final(state)),
{
    match (phase, event) {
        (Phase::Idle, Event::FlashRequested) => begin(state, config),
        (Phase::Done, Event::FlashRequested) => begin(state, config),
        (Phase::Failed { .. }, Event::FlashRequested) => begin(state, config),
        (Phase::LoadingPackage { port }, Event::ArchiveRead(outcome)) => match outcome {
            Ok(bytes) => {
                let plan: ExtractionPlan = plan_extraction(bytes);
                (Phase::WritingTree { port, fault: plan.fault }, Action::WriteTree { ops: plan.ops })
            },
            Err(reason) => fail_extraction(reason, state),
        },
        (Phase::WritingTree { port, fault }, Event::TreeWritten(outcome)) => match (outcome, fault) {
            (Err(reason), _) => fail_extraction(reason, state),
            (Ok(_), Some(reason)) => fail_extraction(reason, state),
            (Ok(_), None) => {
                state.set_status(String::from_str("Flashing firmware..."));
                (
                    Phase::OpeningSession,
                    Action::OpenSession { target: standard_target(port.as_str(), config.minimum_revision) },
                )
            },
        },
        (Phase::OpeningSession, Event::SessionOpened(outcome)) => match outcome {
            Ok(found) => match check_revision(found, config.minimum_revision) {
                Ok(_) => (Phase::QueryingCrystal, Action::QueryCrystal),
                Err(error) => fail_flashing(FlashError::Connection(error), state),
            },
            Err(reason) => fail_flashing(FlashError::Connection(ConnectionError::Unavailable(reason)), state),
        },
        (Phase::QueryingCrystal, Event::CrystalReported(outcome)) => match outcome {
            Ok(crystal) => (Phase::ReadingImage { crystal }, Action::ReadImage { name: String::from_str("firmware.elf") }),
            Err(reason) => fail_flashing(FlashError::Connection(ConnectionError::Unavailable(reason)), state),
        },
        (Phase::ReadingImage { crystal }, Event::ImageRead(outcome)) => match outcome {
            Ok(bytes) => match build_payload(bytes, config.geometry, crystal) {
                Ok(payload) => (Phase::Transferring, Action::Transfer { payload }),
                Err(error) => fail_flashing(FlashError::Image(error), state),
            },
            Err(reason) => fail_flashing(FlashError::Image(ImageError::Unreadable(reason)), state),
        },
        (Phase::Transferring, Event::Transferred(outcome)) => match outcome {
            Ok(_) => {
                state.set_status(String::from_str("Firmware flashed successfully!"));
                (Phase::Done, Action::Rest)
            },
            Err(reason) => fail_flashing(FlashError::Transfer(reason), state),
        },
        (phase, _) => (phase, Action::Rest),
    }
}

/// Whether one stage follows another in a running attempt.
pub open spec fn follows(from: Stage, to: Stage) -> bool {
    ||| from == Stage::Extracting && to == Stage::Connecting
    ||| from == Stage::Connecting && to == Stage::Building
    ||| from == Stage::Building && to == Stage::Transferring
    ||| from == Stage::Transferring && to == Stage::Done
}

/// The pipeline is linear: a step keeps the stage, moves to the one that
/// follows it, or fails; and only a request to flash, made while no attempt
/// is running, begins an attempt or returns to idle.
pub proof fn pipeline_is_linear(
    phase: Phase,
    package: Option<Seq<char>>,
    port: Option<Seq<char>>,
    before: Seq<char>,
    config: FlashConfig,
    event: Event,
    next: Phase,
    status: Seq<char>,
    action: Action,
)
    requires
        transition(phase, package, port, before, config, event, next, status, action),
    ensures
        next.stage_spec() == phase.stage_spec() || follows(phase.stage_spec(), next.stage_spec()) || (
        !phase.at_rest() && next is Failed) || (phase.at_rest() && event is FlashRequested && (next is Idle
            || next is LoadingPackage)),
{
}

/// A failed extraction short-circuits the attempt: whether the package file
/// cannot be read, the plan stops short or a step of it fails, the attempt
/// fails with an archive error and the caller is asked for nothing more, so
/// that no connection is attempted.
pub proof fn failed_extraction_never_connects(
    phase: Phase,
    package: Option<Seq<char>>,
    port: Option<Seq<char>>,
    before: Seq<char>,
    config: FlashConfig,
    event: Event,
    next: Phase,
    status: Seq<char>,
    action: Action,
)
    requires
        transition(phase, package, port, before, config, event, next, status, action),
        (phase is LoadingPackage && event matches Event::ArchiveRead(Err(_))) || (phase is WritingTree && (
        event matches Event::TreeWritten(Err(_)) || (event is TreeWritten && phase->WritingTree_fault is Some))),
    ensures
        next matches Phase::Failed { error: FlashError::Archive(_) },
        action is Rest,
{
}

/// The caller is asked to open a session only when every step of a plan that
/// covers the whole package has been performed.
pub proof fn session_opens_only_after_extraction(
    phase: Phase,
    package: Option<Seq<char>>,
    port: Option<Seq<char>>,
    before: Seq<char>,
    config: FlashConfig,
    event: Event,
    next: Phase,
    status: Seq<char>,
    action: Action,
)
    requires
        transition(phase, package, port, before, config, event, next, status, action),
        action is OpenSession,
    ensures
        phase matches Phase::WritingTree { fault: None, .. },
        event matches Event::TreeWritten(Ok(_)),
        next is OpeningSession,
{
}

/// A device that reports a revision below the minimum fails the attempt
/// with a connection error, and the caller is asked for nothing more.
pub proof fn low_revision_is_refused(
    phase: Phase,
    package: Option<Seq<char>>,
    port: Option<Seq<char>>,
    before: Seq<char>,
    config: FlashConfig,
    event: Event,
    next: Phase,
    status: Seq<char>,
    action: Action,
    found: ChipRevision,
)
    requires
        transition(phase, package, port, before, config, event, next, status, action),
        phase is OpeningSession,
        event == Event::SessionOpened(Ok(found)),
        found.number() < config.minimum_revision,
    ensures
        next == (Phase::Failed {
            error: FlashError::Connection(ConnectionError::Incompatible { minimum: config.minimum_revision, found }),
        }),
        action is Rest,
{
}

/// Nothing is built or transferred for a device that was not accepted: the
/// firmware file is asked for only once the device has reported its crystal
/// frequency, which it is asked for only once its revision has been found
/// sufficient; and a payload is handed out only from the bytes of the
/// firmware file.
pub proof fn payload_only_for_accepted_device(
    phase: Phase,
    package: Option<Seq<char>>,
    port: Option<Seq<char>>,
    before: Seq<char>,
    config: FlashConfig,
    event: Event,
    next: Phase,
    status: Seq<char>,
    action: Action,
)
    requires
        transition(phase, package, port, before, config, event, next, status, action),
    ensures
        action is QueryCrystal ==> phase is OpeningSession && (event matches Event::SessionOpened(Ok(found))
            && found.number() >= config.minimum_revision),
        action is ReadImage ==> phase is QueryingCrystal && event matches Event::CrystalReported(Ok(_)),
        action is Transfer ==> phase is ReadingImage && (event matches Event::ImageRead(Ok(bytes))
            && header_verdict(bytes@) is Ok && action->payload.image_bytes() == bytes@),
{
}

/// Without a package and a port no attempt begins: a request to flash leaves
/// the machine idle, with the prompt as status line and nothing to do.
pub proof fn selection_is_required(
    phase: Phase,
    package: Option<Seq<char>>,
    port: Option<Seq<char>>,
    before: Seq<char>,
    config: FlashConfig,
    next: Phase,
    status: Seq<char>,
    action: Action,
)
    requires
        transition(phase, package, port, before, config, Event::FlashRequested, next, status, action),
        phase.at_rest(),
        package is None || port is None,
    ensures
        next is Idle,
        status == prompt_text(),
        action is Rest,
{
}

/// A finished attempt stays finished: after success or failure only a new
/// request to flash has any effect.
pub proof fn finished_attempt_stays(
    phase: Phase,
    package: Option<Seq<char>>,
    port: Option<Seq<char>>,
    before: Seq<char>,
    config: FlashConfig,
    event: Event,
    next: Phase,
    status: Seq<char>,
    action: Action,
)
    requires
        transition(phase, package, port, before, config, event, next, status, action),
        phase is Done || phase is Failed,
        !(event is FlashRequested),
    ensures
        next == phase,
        status == before,
        action is Rest,
{
}

} // verus!
