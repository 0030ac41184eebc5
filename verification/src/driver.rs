//! A scripted stand-in for the native driver.
//!
//! It answers every protocol action from a fixed script — the identifier
//! the create call hands back, the compile status, the diagnostic log — and
//! counts the calls it performed, so the protocol can be exercised and its
//! guarantees observed without a live context. The compilation lock is
//! modeled by a holder count with a high-water mark: a guarded compile
//! raises the count for exactly the one call.

use vstd::prelude::*;
use vstd::utf8::encode_utf8;
use crate::context::CapabilityPath;
use crate::handle::Handle;
use crate::protocol::{DriverAction, DriverEvent};

verus! {

/// The scripted driver, with call counters.
pub struct SimDriver {
    /// Identifier the simulated create call hands back; 0 simulates a
    /// driver that refuses the stage.
    pub raw_id: u32,
    /// Simulated compile status: whether the compile-status parameter
    /// reads as success.
    pub compile_ok: bool,
    /// Simulated diagnostic log, handed back by log retrieval.
    pub log: String,
    /// The source text most recently attached, empty before any upload.
    pub attached_source: String,
    /// How many create calls ran.
    pub create_calls: u64,
    /// How many source-upload calls ran.
    pub source_calls: u64,
    /// How many compile calls ran.
    pub compile_calls: u64,
    /// How many status and log queries ran.
    pub query_calls: u64,
    /// How many units of work hold the compilation lock right now.
    pub lock_depth: u64,
    /// The most holders the compilation lock ever had at once.
    pub max_lock_depth: u64,
}

impl SimDriver {
    /// Room for `n` more calls in every counter; a machine limit, not a
    /// protocol rule.
    pub open spec fn counters_have_room(self, n: int) -> bool {
        &&& self.create_calls + n <= u64::MAX
        &&& self.source_calls + n <= u64::MAX
        &&& self.compile_calls + n <= u64::MAX
        &&& self.query_calls + n <= u64::MAX
        &&& self.lock_depth + n <= u64::MAX
    }

    /// The handle the scripted create call hands back on a path.
    pub open spec fn spec_created_handle(self, p: CapabilityPath) -> Handle {
        match p {
            CapabilityPath::Core => Handle::Id(self.raw_id),
            CapabilityPath::LegacyExtension => Handle::Handle(self.raw_id as u64),
        }
    }

    /// The compile-status parameter the script reads back.
    pub open spec fn spec_status(self) -> i32 {
        if self.compile_ok {
            1
        } else {
            0
        }
    }

    /// The script fields, which no call changes.
    pub open spec fn same_script(self, other: SimDriver) -> bool {
        &&& self.raw_id == other.raw_id
        &&& self.compile_ok == other.compile_ok
        &&& self.log == other.log
    }

    /// The lock bookkeeping one guarded compile call leaves behind: the
    /// holder count is back where it was, and the high-water mark records
    /// the count while the call ran.
    pub open spec fn after_guarded_compile(self, before: SimDriver) -> bool {
        &&& self.lock_depth == before.lock_depth
        &&& self.max_lock_depth == if before.lock_depth + 1 > before.max_lock_depth {
            before.lock_depth + 1
        } else {
            before.max_lock_depth as int
        }
    }

    /// A fresh script: no calls counted yet, the lock free, nothing
    /// attached.
    pub fn new(raw_id: u32, compile_ok: bool, log: String) -> (d: SimDriver)
        ensures
            d.raw_id == raw_id,
            d.compile_ok == compile_ok,
            d.log == log,
            d.attached_source@ == Seq::<char>::empty(),
            d.create_calls == 0,
            d.source_calls == 0,
            d.compile_calls == 0,
            d.query_calls == 0,
            d.lock_depth == 0,
            d.max_lock_depth == 0,
    {
        SimDriver {
            raw_id,
            compile_ok,
            log,
            attached_source: String::new(),
            create_calls: 0,
            source_calls: 0,
            compile_calls: 0,
            query_calls: 0,
            lock_depth: 0,
            max_lock_depth: 0,
        }
    }

    /// Run one requested native call against the script: bump the matching
    /// counter and hand back the event the real driver would. `source` is
    /// the caller's source text, attached by the upload call and ignored by
    /// every other.
    pub fn perform(&mut self, action: &DriverAction, source: &str) -> (ev: DriverEvent)
        requires
            !(action is Report),
            old(self).counters_have_room(1),
        ensures
            final(self).same_script(*old(self)),
            action matches DriverAction::CreateShader(p, _) ==> {
                &&& ev == DriverEvent::ObjectCreated(old(self).spec_created_handle(*p))
                &&& *final(self) == (SimDriver {
                    create_calls: (old(self).create_calls + 1) as u64,
                    ..*old(self)
                })
            },
            action is ShaderSource ==> {
                &&& ev == DriverEvent::SourceSet
                &&& final(self).attached_source@ == source@
                &&& *final(self) == (SimDriver {
                    source_calls: (old(self).source_calls + 1) as u64,
                    attached_source: final(self).attached_source,
                    ..*old(self)
                })
            },
            action is CompileShader ==> {
                &&& ev == DriverEvent::Compiled
                &&& final(self).after_guarded_compile(*old(self))
                &&& *final(self) == (SimDriver {
                    compile_calls: (old(self).compile_calls + 1) as u64,
                    max_lock_depth: final(self).max_lock_depth,
                    ..*old(self)
                })
            },
            action is GetCompileStatus ==> {
                &&& ev == DriverEvent::CompileStatus(old(self).spec_status())
                &&& *final(self) == (SimDriver {
                    query_calls: (old(self).query_calls + 1) as u64,
                    ..*old(self)
                })
            },
            action is GetInfoLogLength ==> {
                &&& ev matches DriverEvent::InfoLogLength(n) && n == encode_utf8(
                    old(self).log@,
                ).len() as usize
                &&& *final(self) == (SimDriver {
                    query_calls: (old(self).query_calls + 1) as u64,
                    ..*old(self)
                })
            },
            action is GetInfoLog ==> {
                &&& ev matches DriverEvent::InfoLog(msg) && msg@ == old(self).log@
                &&& *final(self) == (SimDriver {
                    query_calls: (old(self).query_calls + 1) as u64,
                    ..*old(self)
                })
            },
    {
        match action {
            DriverAction::CreateShader(p, _stage) => {
                self.create_calls = self.create_calls + 1;
                match p {
                    CapabilityPath::Core => DriverEvent::ObjectCreated(Handle::Id(self.raw_id)),
                    CapabilityPath::LegacyExtension => DriverEvent::ObjectCreated(
                        Handle::Handle(self.raw_id as u64),
                    ),
                }
            },
            DriverAction::ShaderSource(_) => {
                self.source_calls = self.source_calls + 1;
                self.attached_source = source.to_owned();
                DriverEvent::SourceSet
            },
            DriverAction::CompileShader(_) => {
                self.lock_depth = self.lock_depth + 1;
                if self.lock_depth > self.max_lock_depth {
                    self.max_lock_depth = self.lock_depth;
                }
                self.compile_calls = self.compile_calls + 1;
                self.lock_depth = self.lock_depth - 1;
                DriverEvent::Compiled
            },
            DriverAction::GetCompileStatus(_) => {
                self.query_calls = self.query_calls + 1;
                if self.compile_ok {
                    DriverEvent::CompileStatus(1)
                } else {
                    DriverEvent::CompileStatus(0)
                }
            },
            DriverAction::GetInfoLogLength(_) => {
                self.query_calls = self.query_calls + 1;
                DriverEvent::InfoLogLength(self.log.as_str().len())
            },
            DriverAction::GetInfoLog(_, _) => {
                self.query_calls = self.query_calls + 1;
                DriverEvent::InfoLog(self.log.clone())
            },
            DriverAction::Report(_) => vstd::pervasive::unreached(),
        }
    }
}

/// Compilation serialization, as the lock's holder count records it: a
/// compile call guarded by a lock that was free never sees a second holder,
/// so its high-water mark never passes one.
pub proof fn lemma_compile_serialized(before: SimDriver, after: SimDriver)
    requires
        before.lock_depth == 0,
        before.max_lock_depth <= 1,
        after.after_guarded_compile(before),
    ensures
        after.lock_depth == 0,
        after.max_lock_depth <= 1,
{
}

} // verus!
