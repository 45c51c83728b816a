//! The session: ownership of the native handle, the recorded table-init
//! status, and the checks made around every native read and write.
//!
//! Each native call is handed in as a closure that receives the session's
//! handle. A closure is only required to be callable where the session
//! actually calls it: a read on a blocked session, or a curve-optimizer write
//! with an offset out of range, demands nothing of its closure and so cannot
//! call it.

use vstd::prelude::*;
use crate::curve::{
    coall_encoding, coall_value, coper_encoding, coper_value, core_encodable, offset_in_range,
};
use crate::error::{adj_code, write_outcome, RyzenAdjError, RyzenAdjResult};
use crate::family::{family_code, family_of, is_family_code, RyzenFamily};
use crate::reading::{is_nan, is_nan_bits, reading_outcome};

verus! {

/// Relies on errno::errno: the calling thread's last OS error number, read
/// right after the native session could not be acquired.
#[verifier::external_body]
fn last_os_error() -> (r: i32) {
    errno::errno().0
}

/// The table-init status recorded after a native table initialization returned `status`.
pub open spec fn table_after_init(status: i32) -> Option<i32> {
    if status == 0 {
        None
    } else {
        Some(status)
    }
}

/// The outcome of a floating-point read on a session whose recorded table
/// status is `table`, where the native call reports `bits`.
pub open spec fn read_result(table: Option<i32>, bits: u32) -> RyzenAdjResult<u32> {
    match table {
        Some(s) => Err(RyzenAdjError::InitTableError(s)),
        None => reading_outcome(bits),
    }
}

/// The outcome of a refresh on a session whose recorded table status is
/// `table`, where the native refresh returns `status`.
pub open spec fn refresh_result(table: Option<i32>, status: i32) -> RyzenAdjResult<()> {
    match table {
        Some(s) => Err(RyzenAdjError::InitTableError(s)),
        None => if status == 0 {
            Ok(())
        } else {
            Err(RyzenAdjError::InitTableError(status))
        },
    }
}

/// The recorded table status after that refresh: cleared on success, kept otherwise.
pub open spec fn table_after_refresh(table: Option<i32>, status: i32) -> Option<i32> {
    if refresh_result(table, status) is Ok {
        None
    } else {
        table
    }
}

/// The outcome of a family read where the native call reports `raw`.
pub open spec fn family_result(raw: i32) -> RyzenAdjResult<RyzenFamily> {
    match family_of(raw as int) {
        Some(f) => Ok(f),
        None => Err(RyzenAdjError::UnknowFamily(raw)),
    }
}

/// Holds access to an open native session of type `H`.
///
/// The handle is owned exclusively; it leaves the session only through
/// [`RyzenAdj::close`], which consumes the session.
pub struct RyzenAdj<H> {
    ryzen_adj: H,
    init_table_result: Option<i32>,
}

impl<H> RyzenAdj<H> {
    /// The native handle this session owns.
    pub closed spec fn session_handle(&self) -> H {
        self.ryzen_adj
    }

    /// The failure recorded by the last table initialization, if any.
    pub closed spec fn table_status(&self) -> Option<i32> {
        self.init_table_result
    }

    /// Opens a session.
    ///
    /// `acquire` asks the native library for a handle and yields `None` for a
    /// null one; the error then carries the OS error number. Otherwise
    /// `init_table` runs once on the new handle and a non-zero status is
    /// recorded, blocking reads but not writes.
    pub fn new<A, T>(acquire: A, init_table: T) -> (r: RyzenAdjResult<RyzenAdj<H>>) where
        A: FnOnce() -> Option<H>,
        T: FnOnce(&H) -> i32,

        requires
            acquire.requires(()),
            forall|h: H| init_table.requires((&h,)),
        ensures
            r matches Ok(s) ==> {
                &&& acquire.ensures((), Some(s.session_handle()))
                &&& exists|status: i32|
                    {
                        &&& init_table.ensures((&s.session_handle(),), status)
                        &&& s.table_status() == table_after_init(status)
                    }
            },
            r matches Err(e) ==> acquire.ensures((), None::<H>) && e is InitError,
    {
        match acquire() {
            None => Err(RyzenAdjError::InitError { errno: last_os_error() }),
            Some(ryzen_adj) => {
                let status = init_table(&ryzen_adj);
                let init_table_result = if status != 0 {
                    Some(status)
                } else {
                    None
                };
                assert(init_table_result == table_after_init(status));
                Ok(RyzenAdj { ryzen_adj, init_table_result })
            },
        }
    }

    /// Fails with the recorded table-init status, if there is one.
    pub fn is_init_table(&self) -> (r: RyzenAdjResult<()>)
        ensures
            r is Ok <==> self.table_status() is None,
            self.table_status() matches Some(s) ==> r == Err::<(), _>(
                RyzenAdjError::InitTableError(s),
            ),
    {
        match self.init_table_result {
            Some(s) => Err(RyzenAdjError::InitTableError(s)),
            None => Ok(()),
        }
    }

    /// Refreshes the telemetry table through `native`.
    ///
    /// A session with a recorded table-init failure fails at once with that
    /// status, without calling `native`. Otherwise a non-zero refresh status
    /// is reported as `InitTableError`, and success clears any recorded status.
    pub fn refresh<F: FnOnce(&H) -> i32>(&mut self, native: F) -> (r: RyzenAdjResult<()>)
        requires
            old(self).table_status() is None ==> native.requires((&old(self).session_handle(),)),
        ensures
            final(self).session_handle() == old(self).session_handle(),
            old(self).table_status() matches Some(s) ==> r == Err::<(), _>(
                RyzenAdjError::InitTableError(s),
            ),
            exists|status: i32|
                #![trigger refresh_result(old(self).table_status(), status)]
                {
                    &&& old(self).table_status() is None ==> native.ensures(
                        (&old(self).session_handle(),),
                        status,
                    )
                    &&& r == refresh_result(old(self).table_status(), status)
                    &&& final(self).table_status() == table_after_refresh(
                        old(self).table_status(),
                        status,
                    )
                },
    {
        match self.init_table_result {
            Some(s) => {
                assert(refresh_result(self.init_table_result, 0) is Err);
                assert(table_after_refresh(self.init_table_result, 0) == self.init_table_result);
                Err(RyzenAdjError::InitTableError(s))
            },
            None => {
                let status = native(&self.ryzen_adj);
                assert(refresh_result(self.init_table_result, status) is Ok <==> status == 0);
                if status != 0 {
                    Err(RyzenAdjError::InitTableError(status))
                } else {
                    self.init_table_result = None;
                    Ok(())
                }
            },
        }
    }

    /// Reads one floating-point telemetry value, carried as its IEEE-754 bits.
    ///
    /// A session with a recorded table-init failure fails with that status
    /// without calling `native`; otherwise `native` is called once and a NaN
    /// is refused with `GetNaN`. Any other value is returned unchanged.
    pub fn read_value<F: FnOnce(&H) -> u32>(&self, native: F) -> (r: RyzenAdjResult<u32>)
        requires
            self.table_status() is None ==> native.requires((&self.session_handle(),)),
        ensures
            self.table_status() matches Some(s) ==> r == Err::<u32, _>(
                RyzenAdjError::InitTableError(s),
            ),
            exists|bits: u32|
                #![trigger read_result(self.table_status(), bits)]
                {
                    &&& self.table_status() is None ==> native.ensures(
                        (&self.session_handle(),),
                        bits,
                    )
                    &&& r == read_result(self.table_status(), bits)
                },
    {
        match self.init_table_result {
            Some(s) => {
                assert(read_result(self.init_table_result, 0) is Err);
                Err(RyzenAdjError::InitTableError(s))
            },
            None => {
                let bits = native(&self.ryzen_adj);
                assert(read_result(self.init_table_result, bits) == reading_outcome(bits));
                is_nan(bits)
            },
        }
    }

    /// Gets the BIOS interface version, an integer reading with no NaN check.
    pub fn get_bios_if_ver<F: FnOnce(&H) -> i32>(&self, native: F) -> (r: RyzenAdjResult<i32>)
        requires
            self.table_status() is None ==> native.requires((&self.session_handle(),)),
        ensures
            self.table_status() matches Some(s) ==> r == Err::<i32, _>(
                RyzenAdjError::InitTableError(s),
            ),
            self.table_status() is None ==> exists|v: i32|
                #![trigger native.ensures((&self.session_handle(),), v)]
                native.ensures((&self.session_handle(),), v) && r == Ok::<i32, RyzenAdjError>(v),
    {
        self.is_init_table()?;
        Ok(native(&self.ryzen_adj))
    }

    /// Gets the CPU family.
    ///
    /// An identifier outside the known families fails with `UnknowFamily`
    /// carrying that identifier; no family is substituted for it.
    pub fn get_cpu_family<F: FnOnce(&H) -> i32>(&self, native: F) -> (r: RyzenAdjResult<
        RyzenFamily,
    >)
        requires
            self.table_status() is None ==> native.requires((&self.session_handle(),)),
        ensures
            self.table_status() matches Some(s) ==> r == Err::<RyzenFamily, _>(
                RyzenAdjError::InitTableError(s),
            ),
            self.table_status() is None ==> exists|raw: i32|
                #![trigger native.ensures((&self.session_handle(),), raw)]
                native.ensures((&self.session_handle(),), raw) && r == family_result(raw),
    {
        self.is_init_table()?;
        let family_int = native(&self.ryzen_adj);
        match RyzenFamily::from_raw(family_int) {
            Some(f) => Ok(f),
            None => Err(RyzenAdjError::UnknowFamily(family_int)),
        }
    }

    /// Writes one tunable parameter through `native` and classifies its status.
    ///
    /// Writes do not depend on the telemetry table: `native` is called once
    /// whatever table-init status is recorded.
    pub fn write_value<F: FnOnce(&H) -> i32>(&self, native: F) -> (r: RyzenAdjResult<()>)
        requires
            native.requires((&self.session_handle(),)),
        ensures
            exists|code: i32|
                #![trigger native.ensures((&self.session_handle(),), code)]
                native.ensures((&self.session_handle(),), code) && r == write_outcome(code),
    {
        adj_code(native(&self.ryzen_adj))
    }

    /// Sets the all-core curve optimizer to `value`, within `[-30, 30]`.
    ///
    /// An offset out of range fails with `AdjValueOutOfRange` before any
    /// native call; otherwise `native` receives the encoded magnitude.
    pub fn set_coall<F: FnOnce(&H, u32) -> i32>(&self, value: i32, native: F) -> (r:
        RyzenAdjResult<()>)
        requires
            offset_in_range(value) ==> native.requires(
                (&self.session_handle(), coall_encoding(value as int) as u32),
            ),
        ensures
            !offset_in_range(value) ==> r == Err::<(), _>(RyzenAdjError::AdjValueOutOfRange),
            offset_in_range(value) ==> exists|code: i32|
                {
                    &&& native.ensures(
                        (&self.session_handle(), coall_encoding(value as int) as u32),
                        code,
                    )
                    &&& r == write_outcome(code)
                },
    {
        let magnitude = coall_value(value)?;
        adj_code(native(&self.ryzen_adj, magnitude))
    }

    /// Sets the curve optimizer of core `core` to `value`, within `[-30, 30]`.
    ///
    /// An offset out of range fails with `AdjValueOutOfRange` before any
    /// native call; otherwise `native` receives the encoded magnitude, which
    /// puts the offset into the core's own slot.
    pub fn set_coper<F: FnOnce(&H, u32) -> i32>(&self, core: u32, value: i32, native: F) -> (r:
        RyzenAdjResult<()>)
        requires
            core_encodable(core),
            offset_in_range(value) ==> native.requires(
                (&self.session_handle(), coper_encoding(core as int, value as int) as u32),
            ),
        ensures
            !offset_in_range(value) ==> r == Err::<(), _>(RyzenAdjError::AdjValueOutOfRange),
            offset_in_range(value) ==> exists|code: i32|
                {
                    &&& native.ensures(
                        (&self.session_handle(), coper_encoding(core as int, value as int) as u32),
                        code,
                    )
                    &&& r == write_outcome(code)
                },
    {
        let magnitude = coper_value(core, value)?;
        adj_code(native(&self.ryzen_adj, magnitude))
    }

    /// Ends the session, handing its handle to `cleanup` for release.
    ///
    /// The session is consumed and `cleanup` can run only once, so the
    /// handle is released exactly once and cannot be used afterwards.
    pub fn close<C: FnOnce(H)>(self, cleanup: C)
        requires
            cleanup.requires((self.session_handle(),)),
        ensures
            cleanup.ensures((self.session_handle(),), ()),
    {
        cleanup(self.ryzen_adj)
    }
}

/// A table initialization that failed with `status` blocks every read with
/// `InitTableError(status)`, whatever the native reading would have been, and
/// a refresh fails the same way; writes are unaffected, since their outcome
/// depends on their own status code alone.
pub proof fn lemma_failed_init_blocks_reads(status: i32, bits: u32, refresh_status: i32)
    requires
        status != 0,
    ensures
        table_after_init(status) == Some(status),
        read_result(table_after_init(status), bits) == Err::<u32, _>(
            RyzenAdjError::InitTableError(status),
        ),
        refresh_result(table_after_init(status), refresh_status) == Err::<(), _>(
            RyzenAdjError::InitTableError(status),
        ),
        table_after_refresh(table_after_init(status), refresh_status) == Some(status),
{
}

/// A refresh that succeeds leaves reads unblocked: a reading that is not NaN
/// is then returned unchanged.
pub proof fn lemma_refresh_success_unblocks_reads(table: Option<i32>, status: i32, bits: u32)
    requires
        refresh_result(table, status) is Ok,
        !is_nan_bits(bits),
    ensures
        table_after_refresh(table, status) is None,
        read_result(table_after_refresh(table, status), bits) == Ok::<u32, RyzenAdjError>(bits),
{
}

/// On an unblocked session a NaN reading fails with `GetNaN`, and no read ever
/// returns NaN bits.
pub proof fn lemma_nan_never_returned(table: Option<i32>, bits: u32)
    ensures
        table is None && is_nan_bits(bits) ==> read_result(table, bits) == Err::<u32, _>(
            RyzenAdjError::GetNaN,
        ),
        read_result(table, bits) matches Ok(v) ==> v == bits && !is_nan_bits(v),
{
}

/// An identifier outside the known families is reported as `UnknowFamily`
/// with that identifier, and a known one as its own family.
pub proof fn lemma_family_result(raw: i32)
    ensures
        !is_family_code(raw as int) ==> family_result(raw) == Err::<RyzenFamily, _>(
            RyzenAdjError::UnknowFamily(raw),
        ),
        family_result(raw) matches Ok(f) ==> family_code(f) == raw,
{
}

} // verus!
