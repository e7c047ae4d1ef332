//! Device control gate: the denylist that protects critical devices, the
//! invocation of the system utility that a permitted request leads to, and
//! the reading of what the utility reported.

use vstd::prelude::*;
use vstd::string::*;
use crate::text::{contains, decode_lossy, lossy_text, lowercase, lowercase_of, occurs_in};

verus! {

/// One invocation of the privileged utility: the program, its action flag
/// and the device identifier, in the order of the command line.
#[derive(Clone, Debug)]
pub struct UtilityCall {
    pub program: String,
    pub action: String,
    pub device: String,
}

/// How an invocation of the utility ended.
#[derive(Clone, Debug)]
pub enum UtilityOutcome {
    /// The process could not be started; `reason` is the system's message.
    NotStarted { reason: String },
    /// The process ran and ended; `code` is its exit status, `None` where it
    /// ended without one.
    Exited { code: Option<i32>, stdout: Vec<u8>, stderr: Vec<u8> },
}

/// The error returned for a protected device.
pub open spec fn denied_message() -> Seq<char> {
    "CRITICAL_DENIED: Cannot disable System Root device."@
}

/// The name of the utility.
pub open spec fn utility_program() -> Seq<char> {
    "pnputil"@
}

/// The flag that asks the utility to enable, or to disable, a device.
pub open spec fn action_flag(enable: bool) -> Seq<char> {
    if enable {
        "/enable-device"@
    } else {
        "/disable-device"@
    }
}

/// The label of a toggle that succeeded.
pub open spec fn success_label(enable: bool) -> Seq<char> {
    if enable {
        "Enabled"@
    } else {
        "Disabled"@
    }
}

/// An identifier, already in lowercase, names a critical device if it holds
/// `root` or `system`.
pub open spec fn names_critical_device(lowered: Seq<char>) -> bool {
    occurs_in("root"@, lowered) || occurs_in("system"@, lowered)
}

/// A device is protected if its identifier, whatever its case, names a
/// critical device.
pub open spec fn is_protected(id: Seq<char>) -> bool {
    names_critical_device(lowercase_of(id))
}

/// The diagnostic of a utility that ran and failed: what it wrote to its
/// error stream, then what it wrote to its output stream.
pub open spec fn failure_text(stderr_text: Seq<char>, stdout_text: Seq<char>) -> Seq<char> {
    "Action Failed: "@ + stderr_text + " "@ + stdout_text
}

/// The diagnostic of a utility that could not be started.
pub open spec fn not_started_text(reason: Seq<char>) -> Seq<char> {
    "Failed to execute pnputil: "@ + reason
}

/// A run succeeded if it ended with exit status zero.
pub open spec fn exited_well(code: Option<i32>) -> bool {
    code == Some(0i32)
}

/// What a toggle request returns once the utility has been invoked.
pub open spec fn toggle_verdict(enable: bool, outcome: UtilityOutcome) -> Result<
    Seq<char>,
    Seq<char>,
> {
    match outcome {
        UtilityOutcome::NotStarted { reason } => Err(not_started_text(reason@)),
        UtilityOutcome::Exited { code, stdout, stderr } => if exited_well(code) {
            Ok(success_label(enable))
        } else {
            Err(failure_text(lossy_text(stderr@), lossy_text(stdout@)))
        },
    }
}

/// An invocation of the utility, as plain text.
pub struct CallText {
    pub program: Seq<char>,
    pub action: Seq<char>,
    pub device: Seq<char>,
}

impl DeepView for UtilityCall {
    type V = CallText;

    open spec fn deep_view(&self) -> CallText {
        CallText { program: self.program@, action: self.action@, device: self.device@ }
    }
}

/// What a toggle request leads to before anything is invoked: the denial
/// for a protected device, else the one invocation to make.
pub open spec fn planned(id: Seq<char>, enable: bool) -> Result<CallText, Seq<char>> {
    if is_protected(id) {
        Err(denied_message())
    } else {
        Ok(CallText { program: utility_program(), action: action_flag(enable), device: id })
    }
}

/// The text of a plan.
pub open spec fn plan_text(r: Result<UtilityCall, String>) -> Result<CallText, Seq<char>> {
    match r {
        Ok(call) => Ok(call.deep_view()),
        Err(message) => Err(message@),
    }
}

/// The text of a `Result` of strings.
pub open spec fn verdict_text(r: Result<String, String>) -> Result<Seq<char>, Seq<char>> {
    match r {
        Ok(label) => Ok(label@),
        Err(message) => Err(message@),
    }
}

/// Tells whether an identifier that is already in lowercase names a
/// critical device.
pub fn lowered_names_critical_device(lowered: &str) -> (r: bool)
    ensures
        r == names_critical_device(lowered@),
{
    contains(lowered, "root") || contains(lowered, "system")
}

/// Tells whether the device is protected against toggling.
pub fn check_protected(id: &str) -> (r: bool)
    ensures
        r == is_protected(id@),
{
    let lowered = lowercase(id);
    lowered_names_critical_device(lowered.as_str())
}

/// Decides a toggle request. A protected device is refused with the
/// critical-device error and no invocation is handed out; any other device
/// gets the one invocation to make: the utility, the flag for `enable`, and
/// the identifier unchanged.
pub fn plan_toggle(id: &str, enable: bool) -> (r: Result<UtilityCall, String>)
    ensures
        plan_text(r) == planned(id@, enable),
{
    if check_protected(id) {
        return Err(String::from_str("CRITICAL_DENIED: Cannot disable System Root device."));
    }
    let action = if enable {
        "/enable-device"
    } else {
        "/disable-device"
    };
    Ok(
        UtilityCall {
            program: String::from_str("pnputil"),
            action: String::from_str(action),
            device: String::from_str(id),
        },
    )
}

/// Joins the two streams of a failed run into one diagnostic.
pub fn failure_message(stderr_text: &str, stdout_text: &str) -> (r: String)
    ensures
        r@ == failure_text(stderr_text@, stdout_text@),
{
    let mut r = String::from_str("Action Failed: ");
    r.append(stderr_text);
    r.append(" ");
    r.append(stdout_text);
    r
}

/// Reads the outcome of the invocation. Success is decided by the exit
/// status alone: the label for `enable` on status zero, else a diagnostic
/// that holds both streams.
pub fn conclude_toggle(enable: bool, outcome: &UtilityOutcome) -> (r: Result<String, String>)
    ensures
        verdict_text(r) == toggle_verdict(enable, *outcome),
{
    match outcome {
        UtilityOutcome::NotStarted { reason } => {
            let mut message = String::from_str("Failed to execute pnputil: ");
            message.append(reason.as_str());
            Err(message)
        },
        UtilityOutcome::Exited { code, stdout, stderr } => {
            let success = match code {
                Some(status) => *status == 0,
                None => false,
            };
            if success {
                if enable {
                    Ok(String::from_str("Enabled"))
                } else {
                    Ok(String::from_str("Disabled"))
                }
            } else {
                let err_text = decode_lossy(stderr.as_slice());
                let out_text = decode_lossy(stdout.as_slice());
                Err(failure_message(err_text.as_str(), out_text.as_str()))
            }
        },
    }
}

/// An identifier that holds `root` or `system` once it is put in lowercase
/// is always refused, whether the request enables or disables, and the
/// refusal holds no invocation.
pub proof fn critical_devices_are_denied(id: Seq<char>, enable: bool)
    requires
        occurs_in("root"@, lowercase_of(id)) || occurs_in("system"@, lowercase_of(id)),
    ensures
        planned(id, enable) == Err::<CallText, Seq<char>>(denied_message()),
{
}

/// A request to enable a permitted device invokes the utility with the
/// enable flag and the identifier; exit status zero gives `Enabled`, any
/// other gives an error in which what the utility wrote to either stream
/// occurs.
pub proof fn enabling_follows_exit_status(
    id: Seq<char>,
    code: Option<i32>,
    stdout: Vec<u8>,
    stderr: Vec<u8>,
)
    requires
        !is_protected(id),
        code != Some(0i32),
    ensures
        planned(id, true) == Ok::<CallText, Seq<char>>(
            CallText { program: utility_program(), action: "/enable-device"@, device: id },
        ),
        toggle_verdict(true, UtilityOutcome::Exited { code: Some(0i32), stdout, stderr }) == Ok::<
            Seq<char>,
            Seq<char>,
        >("Enabled"@),
        toggle_verdict(true, UtilityOutcome::Exited { code, stdout, stderr }) matches Err(message)
            && occurs_in(lossy_text(stdout@), message) && occurs_in(lossy_text(stderr@), message),
{
    let err = lossy_text(stderr@);
    let out = lossy_text(stdout@);
    let message = failure_text(err, out);
    let head = "Action Failed: "@.len() as int;
    assert(message.subrange(head, head + err.len()) =~= err);
    let tail = head + err.len() + " "@.len();
    assert(message.subrange(tail, tail + out.len()) =~= out);
}

} // verus!
