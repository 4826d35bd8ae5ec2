//! The walk that binds a session to its selected output.
//!
//! Adapters are visited in index order, and the outputs of each adapter in
//! index order; only outputs attached to the desktop count. The walk stops at
//! the output whose position among the counted ones is the requested index:
//! a device is created on that output's adapter and the output is duplicated.
//! An adapter whose device cannot be created contributes no output, and the
//! walk goes on with the next adapter. The caller probes the platform as each
//! step asks and reports the outcome.
use crate::error::OutputDuplicationError;
use vstd::prelude::*;

verus! {

/// Outcome of asking the platform for an adapter.
#[derive(Copy, Clone, Debug, PartialEq, Eq, Structural)]
pub enum AdapterProbe {
    /// The adapter exists.
    Present,
    /// There is no adapter at this index: enumeration is over.
    Exhausted,
    /// Enumeration failed with the given status code.
    Failed(i32),
}

/// Outcome of asking an adapter for one of its outputs.
#[derive(Copy, Clone, Debug, PartialEq, Eq, Structural)]
pub enum OutputProbe {
    /// The output exists and is attached to the desktop.
    Attached,
    /// The output exists but is not attached to the desktop.
    Detached,
    /// The adapter has no output at this index.
    Exhausted,
    /// Describing the output failed with the given status code.
    Failed(i32),
}

/// What the caller does next.
#[derive(Copy, Clone, Debug, PartialEq, Eq, Structural)]
pub enum SearchStep {
    /// Ask for the adapter at this index.
    ProbeAdapter(u32),
    /// Ask adapter `.0` for its output at index `.1`.
    ProbeOutput(u32, u32),
    /// Create a device on this adapter.
    CreateDevice(u32),
    /// Duplicate output `.1` of adapter `.0` on the device just created.
    Duplicate(u32, u32),
    /// The output is bound.
    Bound,
    /// The walk ended without binding.
    Failed(OutputDuplicationError),
}

/// Where a walk stands.
#[derive(Copy, Clone, Debug, PartialEq, Eq, Structural)]
pub struct SearchModel {
    /// Requested index among the counted outputs.
    pub target: usize,
    /// Attached outputs counted so far.
    pub counted: usize,
    /// Attached outputs counted before the current adapter.
    pub counted_before_adapter: usize,
    /// Current adapter index.
    pub adapter: u32,
    /// Current output index on that adapter.
    pub output: u32,
    /// Whether some adapter's device could not be created.
    pub device_failed: bool,
    /// Status code of the last failed device creation.
    pub device_failure: i32,
}

impl SearchModel {
    pub open spec fn wf(self) -> bool {
        self.counted_before_adapter <= self.counted <= self.target
    }

    /// The error of a walk that ran out of adapters: a device failure when
    /// some adapter's device could not be created, else no output.
    pub open spec fn exhausted_error(self) -> OutputDuplicationError {
        if self.device_failed {
            OutputDuplicationError::DeviceError(self.device_failure)
        } else {
            OutputDuplicationError::NoOutput
        }
    }

    /// Moves on to the next adapter.
    pub open spec fn next_adapter(self) -> (SearchModel, SearchStep) {
        if self.adapter == u32::MAX {
            (self, SearchStep::Failed(self.exhausted_error()))
        } else {
            (
                SearchModel { adapter: (self.adapter + 1) as u32, output: 0, ..self },
                SearchStep::ProbeAdapter((self.adapter + 1) as u32),
            )
        }
    }

    /// Moves on to the next output of the current adapter.
    pub open spec fn next_output(self) -> (SearchModel, SearchStep) {
        if self.output == u32::MAX {
            self.next_adapter()
        } else {
            (
                SearchModel { output: (self.output + 1) as u32, ..self },
                SearchStep::ProbeOutput(self.adapter, (self.output + 1) as u32),
            )
        }
    }

    /// The walk after the current adapter was probed.
    pub open spec fn after_adapter(self, p: AdapterProbe) -> (SearchModel, SearchStep) {
        match p {
            AdapterProbe::Present => (
                SearchModel { output: 0, counted_before_adapter: self.counted, ..self },
                SearchStep::ProbeOutput(self.adapter, 0),
            ),
            AdapterProbe::Exhausted => (self, SearchStep::Failed(self.exhausted_error())),
            AdapterProbe::Failed(c) => (
                self,
                SearchStep::Failed(OutputDuplicationError::DeviceError(c)),
            ),
        }
    }

    /// The walk after the current output was probed: the requested output
    /// stops it, any other attached output is counted.
    pub open spec fn after_output(self, p: OutputProbe) -> (SearchModel, SearchStep) {
        match p {
            OutputProbe::Attached => if self.counted == self.target {
                (self, SearchStep::CreateDevice(self.adapter))
            } else {
                SearchModel { counted: (self.counted + 1) as usize, ..self }.next_output()
            },
            OutputProbe::Detached => self.next_output(),
            OutputProbe::Exhausted => self.next_adapter(),
            OutputProbe::Failed(c) => (
                self,
                SearchStep::Failed(OutputDuplicationError::DeviceError(c)),
            ),
        }
    }

    /// The walk after a device was created on the current adapter, or failed
    /// with status `Err(c)`: then the adapter's outputs are not counted.
    pub open spec fn after_device(self, r: Result<(), i32>) -> (SearchModel, SearchStep) {
        match r {
            Ok(()) => (self, SearchStep::Duplicate(self.adapter, self.output)),
            Err(c) => SearchModel {
                counted: self.counted_before_adapter,
                device_failed: true,
                device_failure: c,
                ..self
            }.next_adapter(),
        }
    }

    /// The walk after the requested output was duplicated, or failed with status `Err(c)`.
    pub open spec fn after_duplicate(self, r: Result<(), i32>) -> (SearchModel, SearchStep) {
        match r {
            Ok(()) => (self, SearchStep::Bound),
            Err(c) => (self, SearchStep::Failed(OutputDuplicationError::DeviceError(c))),
        }
    }
}

/// A walk in progress.
pub struct OutputSearch {
    target: usize,
    counted: usize,
    counted_before_adapter: usize,
    adapter: u32,
    output: u32,
    device_failed: bool,
    device_failure: i32,
}

impl View for OutputSearch {
    type V = SearchModel;

    closed spec fn view(&self) -> SearchModel {
        SearchModel {
            target: self.target,
            counted: self.counted,
            counted_before_adapter: self.counted_before_adapter,
            adapter: self.adapter,
            output: self.output,
            device_failed: self.device_failed,
            device_failure: self.device_failure,
        }
    }
}

impl OutputSearch {
    /// Starts a walk for output `target`; the first step probes adapter 0.
    pub fn new(target: usize) -> (r: (OutputSearch, SearchStep))
        ensures
            r.0@ == (SearchModel {
                target,
                counted: 0,
                counted_before_adapter: 0,
                adapter: 0,
                output: 0,
                device_failed: false,
                device_failure: 0,
            }),
            r.0@.wf(),
            r.1 == SearchStep::ProbeAdapter(0),
    {
        (
            OutputSearch {
                target,
                counted: 0,
                counted_before_adapter: 0,
                adapter: 0,
                output: 0,
                device_failed: false,
                device_failure: 0,
            },
            SearchStep::ProbeAdapter(0),
        )
    }

    fn exhausted_error(&self) -> (e: OutputDuplicationError)
        ensures
            e == self@.exhausted_error(),
    {
        if self.device_failed {
            OutputDuplicationError::DeviceError(self.device_failure)
        } else {
            OutputDuplicationError::NoOutput
        }
    }

    fn next_adapter(&mut self) -> (step: SearchStep)
        ensures
            (final(self)@, step) == old(self)@.next_adapter(),
    {
        if self.adapter == u32::MAX {
            SearchStep::Failed(self.exhausted_error())
        } else {
            self.adapter = self.adapter + 1;
            self.output = 0;
            SearchStep::ProbeAdapter(self.adapter)
        }
    }

    fn next_output(&mut self) -> (step: SearchStep)
        ensures
            (final(self)@, step) == old(self)@.next_output(),
    {
        if self.output == u32::MAX {
            self.next_adapter()
        } else {
            self.output = self.output + 1;
            SearchStep::ProbeOutput(self.adapter, self.output)
        }
    }

    /// Records the outcome of an adapter probe and returns the next step.
    pub fn adapter_probed(&mut self, p: AdapterProbe) -> (step: SearchStep)
        requires
            old(self)@.wf(),
        ensures
            (final(self)@, step) == old(self)@.after_adapter(p),
            final(self)@.wf(),
    {
        match p {
            AdapterProbe::Present => {
                self.output = 0;
                self.counted_before_adapter = self.counted;
                SearchStep::ProbeOutput(self.adapter, 0)
            },
            AdapterProbe::Exhausted => SearchStep::Failed(self.exhausted_error()),
            AdapterProbe::Failed(c) => SearchStep::Failed(OutputDuplicationError::DeviceError(c)),
        }
    }

    /// Records the outcome of an output probe and returns the next step.
    pub fn output_probed(&mut self, p: OutputProbe) -> (step: SearchStep)
        requires
            old(self)@.wf(),
        ensures
            (final(self)@, step) == old(self)@.after_output(p),
            final(self)@.wf(),
    {
        match p {
            OutputProbe::Attached => {
                if self.counted == self.target {
                    SearchStep::CreateDevice(self.adapter)
                } else {
                    self.counted = self.counted + 1;
                    self.next_output()
                }
            },
            OutputProbe::Detached => self.next_output(),
            OutputProbe::Exhausted => self.next_adapter(),
            OutputProbe::Failed(c) => SearchStep::Failed(OutputDuplicationError::DeviceError(c)),
        }
    }

    /// Records the outcome of a device creation and returns the next step.
    pub fn device_created(&mut self, r: Result<(), i32>) -> (step: SearchStep)
        requires
            old(self)@.wf(),
        ensures
            (final(self)@, step) == old(self)@.after_device(r),
            final(self)@.wf(),
    {
        match r {
            Ok(()) => SearchStep::Duplicate(self.adapter, self.output),
            Err(c) => {
                self.counted = self.counted_before_adapter;
                self.device_failed = true;
                self.device_failure = c;
                self.next_adapter()
            },
        }
    }

    /// Records the outcome of the duplication and returns the last step.
    pub fn duplicated(&mut self, r: Result<(), i32>) -> (step: SearchStep)
        requires
            old(self)@.wf(),
        ensures
            (final(self)@, step) == old(self)@.after_duplicate(r),
            final(self)@.wf(),
    {
        match r {
            Ok(()) => SearchStep::Bound,
            Err(c) => SearchStep::Failed(OutputDuplicationError::DeviceError(c)),
        }
    }
}

/// The walk creates a device only when it reaches the requested output: an
/// output attached to the desktop with exactly `target` attached outputs
/// counted before it. Each other attached output is counted once; detached
/// outputs and adapter probes count nothing and never create a device.
pub proof fn lemma_device_only_at_requested_output(s: SearchModel, p: OutputProbe, a: AdapterProbe)
    requires
        s.wf(),
    ensures
        s.after_output(p).1 is CreateDevice ==> p == OutputProbe::Attached && s.counted == s.target,
        s.after_output(p).0.counted == if p == OutputProbe::Attached && s.counted != s.target {
            s.counted + 1
        } else {
            s.counted as int
        },
        !(s.after_adapter(a).1 is CreateDevice),
        s.after_adapter(a).0.counted == s.counted,
{
}

} // verus!
