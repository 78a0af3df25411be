//! Module acquisition and outcome interpretation: locating embedded
//! bitcode inside an object file's sections, deciding what each per-input
//! acquisition outcome means for the run, and turning backend-reported
//! results into the typed per-stage outcomes handed to the surrounding CLI
//! layer.

use vstd::prelude::*;

use crate::bytes::bytes_eq;
use crate::bytes::starts_with;

verus! {

/// One section of a parsed object file, as the backend enumerates them:
/// name and raw contents.
pub struct Section {
    pub name: Vec<u8>,
    pub data: Vec<u8>,
}

/// The name of the section holding a serialized program fragment inside an
/// object file: `.llvmbc`, as bytes.
pub open spec fn embedded_bitcode_section_name() -> Seq<u8> {
    seq![46u8, 108u8, 108u8, 118u8, 109u8, 98u8, 99u8]
}

fn embedded_bitcode_section_name_bytes() -> (r: Vec<u8>)
    ensures
        r@ == embedded_bitcode_section_name(),
{
    let mut v: Vec<u8> = Vec::new();
    v.push(46);
    v.push(108);
    v.push(108);
    v.push(118);
    v.push(109);
    v.push(98);
    v.push(99);
    proof {
        assert(v@ =~= embedded_bitcode_section_name());
    }
    v
}

/// Searches an object file's sections for the embedded-bitcode section and
/// returns the contents of the first one found. Absence is a valid outcome,
/// not an error: an object file without embedded bitcode contributes
/// nothing to the image.
pub fn find_embedded_bitcode(sections: Vec<Section>) -> (r: Option<Vec<u8>>)
    ensures
        match r {
            Some(d) => exists|i: int|
                {
                    &&& 0 <= i < sections@.len()
                    &&& (#[trigger] sections@[i]).name@ == embedded_bitcode_section_name()
                    &&& d@ == sections@[i].data@
                    &&& forall|j: int|
                        0 <= j < i ==> (#[trigger] sections@[j]).name@
                            != embedded_bitcode_section_name()
                },
            None => forall|i: int|
                0 <= i < sections@.len() ==> (#[trigger] sections@[i]).name@
                    != embedded_bitcode_section_name(),
        },
{
    let target = embedded_bitcode_section_name_bytes();
    let mut idx: usize = 0;
    let mut found = false;
    while idx < sections.len() && !found
        invariant
            idx <= sections@.len(),
            found ==> idx < sections@.len() && sections@[idx as int].name@
                == embedded_bitcode_section_name(),
            forall|j: int|
                0 <= j < idx ==> (#[trigger] sections@[j]).name@
                    != embedded_bitcode_section_name(),
            target@ == embedded_bitcode_section_name(),
        decreases sections@.len() - idx + (if found { 0int } else { 1int }),
    {
        if bytes_eq(sections[idx].name.as_slice(), target.as_slice()) {
            found = true;
        } else {
            idx += 1;
        }
    }
    if found {
        let mut sections = sections;
        let sec = sections.remove(idx);
        Some(sec.data)
    } else {
        None
    }
}

/// The magic number opening every serialized-bitcode buffer: `BC` followed
/// by the bytes `0xC0`, `0xDE`.
pub open spec fn bitcode_magic() -> Seq<u8> {
    seq![66u8, 67u8, 192u8, 222u8]
}

/// Classifies a raw input buffer as bitcode by its magic number.
pub fn buffer_is_bitcode(data: &[u8]) -> (r: bool)
    ensures
        r == bitcode_magic().is_prefix_of(data@),
{
    let mut magic: Vec<u8> = Vec::new();
    magic.push(66);
    magic.push(67);
    magic.push(192);
    magic.push(222);
    proof {
        assert(magic@ =~= bitcode_magic());
    }
    starts_with(data, magic.as_slice())
}

/// What module acquisition reported for one input.
#[derive(Clone, Copy, Debug, PartialEq, Eq, Structural)]
pub enum AcquisitionOutcome {
    /// A parsed fragment is ready to be merged.
    Fragment,
    /// An object file with no embedded-bitcode section: nothing to merge,
    /// and nothing wrong.
    NoEmbeddedBitcode,
    /// The input is not valid in any recognized form.
    Failure,
}

/// What the run does next with one input.
#[derive(Clone, Copy, Debug, PartialEq, Eq, Structural)]
pub enum StepAction {
    MergeFragment,
    SkipInput,
    AbortRun,
}

/// Decides the run's next step from one input's acquisition outcome: a
/// fragment is merged, an object file without embedded bitcode is skipped,
/// and a malformed input aborts the unit of work.
pub fn acquisition_step(outcome: &AcquisitionOutcome) -> (a: StepAction)
    ensures
        (a == StepAction::MergeFragment) == (outcome is Fragment),
        (a == StepAction::SkipInput) == (outcome is NoEmbeddedBitcode),
        (a == StepAction::AbortRun) == (outcome is Failure),
{
    match outcome {
        AcquisitionOutcome::Fragment => StepAction::MergeFragment,
        AcquisitionOutcome::NoEmbeddedBitcode => StepAction::SkipInput,
        AcquisitionOutcome::Failure => StepAction::AbortRun,
    }
}

/// The recorded fate of one input after acquisition and, where a fragment
/// was produced, its merge.
#[derive(Clone, Copy, Debug, PartialEq, Eq, Structural)]
pub enum InputOutcome {
    Merged,
    NothingEmbedded,
    AcquisitionFailed,
    MergeFailed,
}

/// An input that neither failed to parse nor failed to merge.
pub open spec fn input_ok(o: InputOutcome) -> bool {
    o is Merged || o is NothingEmbedded
}

/// The link phase of a run succeeds exactly when every input either merged
/// or was a valid object file with nothing embedded.
pub fn link_phase_succeeds(outcomes: &Vec<InputOutcome>) -> (ok: bool)
    ensures
        ok == forall|i: int| 0 <= i < outcomes@.len() ==> input_ok(#[trigger] outcomes@[i]),
{
    let mut i: usize = 0;
    while i < outcomes.len()
        invariant
            i <= outcomes@.len(),
            forall|j: int| 0 <= j < i ==> input_ok(#[trigger] outcomes@[j]),
        decreases outcomes@.len() - i,
    {
        let failed = match outcomes[i] {
            InputOutcome::AcquisitionFailed => true,
            InputOutcome::MergeFailed => true,
            InputOutcome::Merged => false,
            InputOutcome::NothingEmbedded => false,
        };
        if failed {
            return false;
        }
        i += 1;
    }
    true
}

/// The typed outcome of a failed pipeline stage, carrying a human-readable
/// message and, where one input is at fault, that input's identity.
pub enum PipelineError {
    /// A malformed or unparseable input, with its identity.
    Acquisition { input: String, message: String },
    /// A failed merge: fatal to the run, since the image may be left in an
    /// undefined partial state.
    Link { input: String },
    /// A backend pass-pipeline error, surfaced verbatim.
    Optimization { message: String },
    /// A backend write error.
    Emission { message: String },
}

/// `r` is the optimization-stage failure carrying exactly `m`.
pub open spec fn is_optimization_error(r: Result<(), PipelineError>, m: Seq<char>) -> bool {
    match r {
        Err(PipelineError::Optimization { message }) => message@ == m,
        _ => false,
    }
}

/// `r` is the emission-stage failure carrying exactly `m`.
pub open spec fn is_emission_error(r: Result<(), PipelineError>, m: Seq<char>) -> bool {
    match r {
        Err(PipelineError::Emission { message }) => message@ == m,
        _ => false,
    }
}

/// `r` is the link-stage failure naming exactly the input `n`.
pub open spec fn is_link_error(r: Result<(), PipelineError>, n: Seq<char>) -> bool {
    match r {
        Err(PipelineError::Link { input }) => input@ == n,
        _ => false,
    }
}

/// Interprets the backend's pass-run report: no error object means
/// success, and an error's message is propagated verbatim. The operation is
/// all-or-nothing; no partial-failure state exists.
pub fn interpret_pass_outcome(error_message: Option<String>) -> (r: Result<(), PipelineError>)
    ensures
        match error_message {
            None => r is Ok,
            Some(m) => is_optimization_error(r, m@),
        },
{
    match error_message {
        None => Ok(()),
        Some(message) => Err(PipelineError::Optimization { message }),
    }
}

/// Interprets the backend's boolean-equivalent emission report, propagating
/// the backend's own message text on failure.
pub fn interpret_emission_outcome(wrote: bool, message: String) -> (r: Result<(), PipelineError>)
    ensures
        wrote ==> r is Ok,
        !wrote ==> is_emission_error(r, message@),
{
    if wrote {
        Ok(())
    } else {
        Err(PipelineError::Emission { message })
    }
}

/// Interprets the backend's boolean merge report: any failure is fatal to
/// the containing acquisition step and names the offending input.
pub fn interpret_merge_outcome(merged: bool, input: String) -> (r: Result<(), PipelineError>)
    ensures
        merged ==> r is Ok,
        !merged ==> is_link_error(r, input@),
{
    if merged {
        Ok(())
    } else {
        Err(PipelineError::Link { input })
    }
}

/// The kind of artifact the emitter writes.
#[derive(Clone, Copy, Debug, PartialEq, Eq, Structural)]
pub enum OutputKind {
    ObjectCode,
    Assembly,
    IrText,
}

/// Textual-IR emission is always available; object code and assembly
/// require a machine configuration.
pub fn needs_machine_config(kind: OutputKind) -> (r: bool)
    ensures
        r == !(kind is IrText),
{
    match kind {
        OutputKind::ObjectCode => true,
        OutputKind::Assembly => true,
        OutputKind::IrText => false,
    }
}

/// Resolves the target triple once: an explicit request wins, else the
/// image's recorded target is used.
pub fn resolve_triple(requested: Option<String>, recorded: String) -> (r: String)
    ensures
        match requested {
            Some(t) => r@ == t@,
            None => r@ == recorded@,
        },
{
    match requested {
        Some(t) => t,
        None => recorded,
    }
}

} // verus!
