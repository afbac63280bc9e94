//! Execution sessions.
//!
//! A session binds loaded modules to one device within one instance.  The
//! caller keeps the instance and the device alive for the session's
//! lifetime; the session itself owns the execution context, the registry of
//! entry points its appended modules export, and a device-scoped allocator
//! for buffer-view allocation.

use vstd::prelude::*;

use crate::allocator::IreeAllocator;
use crate::call::IreeRuntimeCall;
use crate::err::spec_is_status_error;
use crate::err::IreeError;
use crate::hal_device::IreeHalDevice;
use crate::instance::IreeRuntimeInstance;
use crate::status::IreeStatus;
use crate::status::STATUS_INVALID_ARGUMENT;
use crate::status::STATUS_NOT_FOUND;

verus! {

/// A device-scoped allocator, distinct from the host allocator: buffer
/// views on a session's device are allocated through it.
#[derive(Clone, Copy, Debug)]
pub struct IreeHalAllocator {
    device_scoped: bool,
}

impl IreeHalAllocator {
    /// True for every allocator handed out by a session: allocations go to
    /// the session's device.
    pub closed spec fn spec_device_scoped(&self) -> bool {
        self.device_scoped
    }

    /// Builds the allocator of a session's device.
    pub(crate) fn for_device() -> (r: Self)
        ensures
            r.spec_device_scoped(),
    {
        IreeHalAllocator { device_scoped: true }
    }
}

/// Finalized session options.  The defaults need nothing beyond
/// initialization; the flags word is kept for future extensibility.
#[derive(Clone, Copy, Debug)]
pub struct IreeRuntimeSessionOptions {
    context_flags: u64,
}

impl IreeRuntimeSessionOptions {
    /// The context flags the session is created with.
    pub closed spec fn spec_context_flags(&self) -> u64 {
        self.context_flags
    }
}

/// Builds [`IreeRuntimeSessionOptions`]; initialization fills in the
/// defaults and [`IreeRuntimeSessionOptionsBuilder::build`] finalizes them.
#[derive(Clone, Copy, Debug)]
pub struct IreeRuntimeSessionOptionsBuilder {
    context_flags: u64,
}

impl Default for IreeRuntimeSessionOptionsBuilder {
    /// Starts from the initialized defaults: no context flags set.
    fn default() -> (r: Self)
        ensures
            r.spec_context_flags() == 0,
    {
        IreeRuntimeSessionOptionsBuilder { context_flags: 0 }
    }
}

impl IreeRuntimeSessionOptionsBuilder {
    /// The context flags accumulated so far.
    pub closed spec fn spec_context_flags(&self) -> u64 {
        self.context_flags
    }

    /// Finalizes the options as an immutable value.
    pub fn build(&self) -> (r: IreeRuntimeSessionOptions)
        ensures
            r.spec_context_flags() == self.spec_context_flags(),
    {
        IreeRuntimeSessionOptions { context_flags: self.context_flags }
    }
}

/// The bytes a textual entry-point name occupies in the registry: its usual
/// UTF-8 encoding.
pub open spec fn spec_name_bytes(name: Seq<char>) -> Seq<u8> {
    vstd::utf8::encode_utf8(name)
}

/// The four magic bytes that open a compiled module container: `VMFB`.
pub open spec fn spec_module_magic() -> Seq<u8> {
    seq![0x56u8, 0x4du8, 0x46u8, 0x42u8]
}

/// The little-endian 32-bit value stored at `pos`.
pub open spec fn spec_u32le(b: Seq<u8>, pos: int) -> int {
    b[pos] + 256 * (b[pos + 1] + 256 * (b[pos + 2] + 256 * b[pos + 3]))
}

/// Identifier bytes: ASCII letters, digits and underscore.  Module and
/// function names are made of these, so a full `module.function` name has
/// exactly one dot.
pub open spec fn spec_ident_byte(c: u8) -> bool {
    (0x61 <= c <= 0x7a) || (0x41 <= c <= 0x5a) || (0x30 <= c <= 0x39) || c == 0x5f
}

/// A well-formed name: non-empty and made of identifier bytes.
pub open spec fn spec_ident_bytes(s: Seq<u8>) -> bool {
    s.len() >= 1 && (forall|i: int| 0 <= i < s.len() ==> spec_ident_byte(s[i]))
}

/// The exported function names listed at `pos`, `count` of them, each a
/// length-prefixed identifier; the list must end exactly at the container's
/// end.  `None` when the listing is malformed.
pub open spec fn spec_parse_exports(b: Seq<u8>, pos: int, count: int) -> Option<Seq<Seq<u8>>>
    decreases count,
{
    if count <= 0 {
        if pos == b.len() {
            Some(Seq::empty())
        } else {
            None
        }
    } else if pos + 4 > b.len() {
        None
    } else {
        let l = spec_u32le(b, pos);
        if l < 1 || pos + 4 + l > b.len() {
            None
        } else {
            let name = b.subrange(pos + 4, pos + 4 + l);
            if !spec_ident_bytes(name) {
                None
            } else {
                match spec_parse_exports(b, pos + 4 + l, count - 1) {
                    None => None,
                    Some(rest) => Some(seq![name] + rest),
                }
            }
        }
    }
}

/// A parsed compiled-module container: the magic, a length-prefixed module
/// name, a 32-bit export count, and that many length-prefixed exported
/// function names.  `None` when the container is malformed.
pub open spec fn spec_parse_module(b: Seq<u8>) -> Option<(Seq<u8>, Seq<Seq<u8>>)> {
    if b.len() < 8 {
        None
    } else if b.subrange(0, 4) != spec_module_magic() {
        None
    } else {
        let l = spec_u32le(b, 4);
        if l < 1 || 8 + l + 4 > b.len() {
            None
        } else {
            let name = b.subrange(8, 8 + l);
            if !spec_ident_bytes(name) {
                None
            } else {
                match spec_parse_exports(b, 8 + l + 4, spec_u32le(b, 8 + l)) {
                    None => None,
                    Some(exports) => Some((name, exports)),
                }
            }
        }
    }
}

/// The full entry-point names a module contributes to a session's registry:
/// `module.function` for each export, in listing order.
pub open spec fn spec_module_full_names(b: Seq<u8>) -> Option<Seq<Seq<u8>>> {
    match spec_parse_module(b) {
        None => None,
        Some((name, exports)) => Some(
            exports.map_values(|e: Seq<u8>| name + seq![0x2eu8] + e),
        ),
    }
}

/// Reads the little-endian 32-bit value at `pos`.
fn read_u32le(b: &[u8], pos: usize) -> (r: u32)
    requires
        pos + 4 <= b@.len(),
    ensures
        r as int == spec_u32le(b@, pos as int),
{
    (b[pos] as u32) + 256 * (b[pos + 1] as u32) + 65536 * (b[pos + 2] as u32) + 16777216 * (b[pos
        + 3] as u32)
}

/// Copies `len` bytes of `b` starting at `start`.
fn copy_range(b: &[u8], start: usize, len: usize) -> (r: Vec<u8>)
    requires
        start + len <= b@.len(),
    ensures
        r@ == b@.subrange(start as int, start as int + len as int),
{
    let n: usize = b.len();
    let mut out: Vec<u8> = Vec::new();
    let mut j: usize = 0;
    while j < len
        invariant
            j <= len,
            n == b@.len(),
            start + len <= n,
            out@ == b@.subrange(start as int, start as int + j as int),
        decreases len - j,
    {
        out.push(b[start + j]);
        proof {
            assert(out@ =~= b@.subrange(start as int, start as int + (j + 1) as int));
        }
        j += 1;
    }
    out
}

/// Checks that `v` is a non-empty run of identifier bytes.
fn ident_bytes(v: &Vec<u8>) -> (r: bool)
    ensures
        r == spec_ident_bytes(v@),
{
    if v.len() == 0 {
        return false;
    }
    let mut j: usize = 0;
    while j < v.len()
        invariant
            j <= v@.len(),
            forall|i: int| 0 <= i < j ==> spec_ident_byte(v@[i]),
        decreases v@.len() - j,
    {
        let c = v[j];
        if !((0x61 <= c && c <= 0x7a) || (0x41 <= c && c <= 0x5a) || (0x30 <= c && c <= 0x39) || c
            == 0x5f) {
            return false;
        }
        j += 1;
    }
    true
}

/// True exactly when the two byte strings hold the same bytes.
fn bytes_equal(a: &Vec<u8>, b: &Vec<u8>) -> (r: bool)
    ensures
        r == (a@ == b@),
{
    if a.len() != b.len() {
        return false;
    }
    let mut j: usize = 0;
    while j < a.len()
        invariant
            j <= a@.len(),
            a@.len() == b@.len(),
            forall|i: int| 0 <= i < j ==> a@[i] == b@[i],
        decreases a@.len() - j,
    {
        if a[j] != b[j] {
            return false;
        }
        j += 1;
    }
    proof {
        assert(a@ =~= b@);
    }
    true
}

/// Builds the full registry name `module.function`.
fn concat_full_name(name: &Vec<u8>, export: &Vec<u8>) -> (r: Vec<u8>)
    ensures
        r@ == name@ + seq![0x2eu8] + export@,
{
    let mut out: Vec<u8> = Vec::new();
    let mut j: usize = 0;
    while j < name.len()
        invariant
            j <= name@.len(),
            out@ == name@.subrange(0, j as int),
        decreases name@.len() - j,
    {
        out.push(name[j]);
        proof {
            assert(out@ =~= name@.subrange(0, (j + 1) as int));
        }
        j += 1;
    }
    out.push(0x2e);
    let mut j: usize = 0;
    while j < export.len()
        invariant
            j <= export@.len(),
            out@ == name@ + seq![0x2eu8] + export@.subrange(0, j as int),
        decreases export@.len() - j,
    {
        out.push(export[j]);
        proof {
            assert(out@ =~= name@ + seq![0x2eu8] + export@.subrange(0, (j + 1) as int));
        }
        j += 1;
    }
    proof {
        assert(name@.subrange(0, name@.len() as int) =~= name@);
        assert(out@ =~= name@ + seq![0x2eu8] + export@);
    }
    out
}

/// Parses a compiled-module container and returns the full entry-point
/// names it contributes, or `None` when it is malformed.
#[verifier::loop_isolation(false)]
fn parse_module_full_names(b: &[u8]) -> (r: Option<Vec<Vec<u8>>>)
    ensures
        r is Some <==> spec_module_full_names(b@) is Some,
        r matches Some(v) ==> Some(v@.map_values(|e: Vec<u8>| e@)) == spec_module_full_names(b@),
{
    if b.len() < 8 {
        return None;
    }
    if !(b[0] == 0x56 && b[1] == 0x4d && b[2] == 0x46 && b[3] == 0x42) {
        proof {
            if b@.subrange(0, 4) == spec_module_magic() {
                assert(b@[0] == spec_module_magic()[0]);
                assert(b@[1] == spec_module_magic()[1]);
                assert(b@[2] == spec_module_magic()[2]);
                assert(b@[3] == spec_module_magic()[3]);
            }
        }
        return None;
    }
    proof {
        assert(b@.subrange(0, 4) =~= spec_module_magic());
    }
    let l0 = read_u32le(b, 4);
    let name_len = l0 as usize;
    if name_len < 1 {
        return None;
    }
    if b.len() < 13 || name_len > b.len() - 12 {
        return None;
    }
    let name = copy_range(b, 8, name_len);
    if !ident_bytes(&name) {
        return None;
    }
    let count32 = read_u32le(b, 8 + name_len);
    let count = count32 as usize;
    let ghost start = 12 + name_len as int;

    let mut exports: Vec<Vec<u8>> = Vec::new();
    let mut pos: usize = 12 + name_len;
    let mut remaining: usize = count;
    proof {
        assert(exports@.map_values(|e: Vec<u8>| e@) =~= Seq::<Seq<u8>>::empty());
    }
    while remaining > 0
        invariant
            12 + name_len <= pos <= b@.len(),
            remaining <= count,
            (spec_parse_exports(b@, start, count as int) is Some) <==> (spec_parse_exports(
                b@,
                pos as int,
                remaining as int,
            ) is Some),
            spec_parse_exports(b@, pos as int, remaining as int) matches Some(rest)
                ==> spec_parse_exports(b@, start, count as int) == Some(
                exports@.map_values(|e: Vec<u8>| e@) + rest,
            ),
        decreases remaining,
    {
        if b.len() - pos < 4 {
            return None;
        }
        let li = read_u32le(b, pos);
        let export_len = li as usize;
        if export_len < 1 {
            return None;
        }
        if export_len > b.len() - pos - 4 {
            return None;
        }
        let export = copy_range(b, pos + 4, export_len);
        if !ident_bytes(&export) {
            return None;
        }
        let ghost old_map = exports@.map_values(|e: Vec<u8>| e@);
        let ghost old_pos = pos as int;
        let ghost old_remaining = remaining as int;
        exports.push(export);
        pos = pos + 4 + export_len;
        remaining = remaining - 1;
        proof {
            let new_map = exports@.map_values(|e: Vec<u8>| e@);
            let head = b@.subrange(old_pos + 4, old_pos + 4 + li as int);
            assert(new_map =~= old_map.push(head));
            let after = spec_parse_exports(b@, pos as int, remaining as int);
            if after is Some {
                let rest = after->Some_0;
                assert(spec_parse_exports(b@, old_pos, old_remaining) == Some(seq![head] + rest));
                assert(old_map + (seq![head] + rest) =~= new_map + rest);
            }
        }
    }
    if pos != b.len() {
        return None;
    }
    proof {
        assert(spec_parse_exports(b@, pos as int, 0) == Some(Seq::<Seq<u8>>::empty()));
        assert(exports@.map_values(|e: Vec<u8>| e@) + Seq::<Seq<u8>>::empty() =~= exports@.map_values(
            |e: Vec<u8>| e@,
        ));
    }

    let mut fulls: Vec<Vec<u8>> = Vec::new();
    let mut i: usize = 0;
    while i < exports.len()
        invariant
            i <= exports@.len(),
            fulls@.len() == i,
            forall|k: int|
                0 <= k < i ==> fulls@[k]@ == name@ + seq![0x2eu8] + exports@[k]@,
        decreases exports@.len() - i,
    {
        let full = concat_full_name(&name, &exports[i]);
        fulls.push(full);
        i += 1;
    }
    proof {
        let ghost_name = b@.subrange(8, 8 + l0 as int);
        let exports_spec = exports@.map_values(|e: Vec<u8>| e@);
        assert(fulls@.map_values(|e: Vec<u8>| e@) =~= exports_spec.map_values(
            |e: Seq<u8>| ghost_name + seq![0x2eu8] + e,
        ));
    }
    Some(fulls)
}

/// Exclusive owner of one execution session.  The session references, but
/// does not own, the instance and device it was created against: the caller
/// keeps both alive for the session's lifetime.  The handle is neither
/// copyable nor clonable; the session is released exactly once, when the
/// handle is dropped.
#[derive(Debug)]
pub struct IreeRuntimeSession {
    host_alloc: IreeAllocator,
    exports: Vec<Vec<u8>>,
}

/// The condition under which session creation succeeds: the allocator it is
/// handed must be usable.
pub open spec fn spec_session_creation_ok(allocator: &IreeAllocator) -> bool {
    allocator.spec_usable()
}

impl IreeRuntimeSession {
    /// The full entry-point names of every appended module, in append
    /// order (earlier modules first, each module's exports in listing
    /// order).
    pub closed spec fn spec_exports(&self) -> Seq<Seq<u8>> {
        self.exports@.map_values(|e: Vec<u8>| e@)
    }

    /// The host allocator the session was created with.
    pub closed spec fn spec_host_allocator(&self) -> IreeAllocator {
        self.host_alloc
    }

    /// Creates a session bound to `device` within `instance`, allocating
    /// through `allocator`.  The caller must keep `instance` and `device`
    /// alive for the session's lifetime.  Creation succeeds exactly when
    /// the allocator is usable, and the new session has no modules
    /// appended.
    #[allow(unused_variables)]
    pub fn create_with_device(
        instance: &IreeRuntimeInstance,
        options: &IreeRuntimeSessionOptions,
        device: &IreeHalDevice,
        allocator: &IreeAllocator,
    ) -> (r: Result<Self, IreeError>)
        ensures
            r.is_ok() <==> spec_session_creation_ok(allocator),
            r matches Ok(s) ==> s.spec_exports() == Seq::<Seq<u8>>::empty()
                && s.spec_host_allocator() == *allocator,
            r matches Err(e) ==> spec_is_status_error(e, STATUS_INVALID_ARGUMENT),
    {
        if allocator.usable() {
            let s = IreeRuntimeSession { host_alloc: *allocator, exports: Vec::new() };
            proof {
                assert(s.spec_exports() =~= Seq::<Seq<u8>>::empty());
            }
            Ok(s)
        } else {
            Err(
                IreeError::from_status(
                    IreeStatus::from_code(STATUS_INVALID_ARGUMENT),
                    &instance.host_allocator(),
                ),
            )
        }
    }

    /// The allocator of the session's device, used for all buffer-view
    /// allocations on that device; distinct from the host allocator.
    pub fn device_allocator(&self) -> (r: IreeHalAllocator)
        ensures
            r.spec_device_scoped(),
    {
        IreeHalAllocator::for_device()
    }

    /// Parses `module_data` as a compiled-module container and registers
    /// its entry points.  Malformed data is a typed invalid-argument error
    /// that leaves the session unchanged.  Appending is not idempotent: the
    /// names join the registry again in append order, and name lookup
    /// resolves against the whole registry.
    pub fn append_bytecode_module_from_memory(
        &mut self,
        module_data: &[u8],
        allocator: &IreeAllocator,
    ) -> (r: Result<(), IreeError>)
        ensures
            r.is_ok() <==> spec_module_full_names(module_data@) is Some,
            r is Ok ==> (spec_module_full_names(module_data@) matches Some(names)
                && final(self).spec_exports() == old(self).spec_exports() + names),
            r is Err ==> *final(self) == *old(self),
            r matches Err(e) ==> spec_is_status_error(e, STATUS_INVALID_ARGUMENT),
    {
        match parse_module_full_names(module_data) {
            Some(mut names) => {
                let ghost old_exports = self.spec_exports();
                let ghost new_names = names@.map_values(|e: Vec<u8>| e@);
                self.exports.append(&mut names);
                proof {
                    assert(self.spec_exports() =~= old_exports + new_names);
                }
                Ok(())
            },
            None => Err(IreeError::from_status(
                IreeStatus::from_code(STATUS_INVALID_ARGUMENT),
                allocator,
            )),
        }
    }

    /// Looks up the call for the entry point named `full_name`, exactly as
    /// written, `module.function`.  Succeeds exactly when some appended
    /// module exports that full name; otherwise fails with a typed
    /// not-found error and produces no call.
    pub fn get_call_by_name(&self, full_name: &str) -> (r: Result<IreeRuntimeCall, IreeError>)
        ensures
            r.is_ok() <==> self.spec_exports().contains(spec_name_bytes(full_name@)),
            r matches Ok(call) ==> call.spec_entry() == spec_name_bytes(full_name@)
                && !call.spec_invoked() && call.spec_inputs() == Seq::<
                (Seq<usize>, u32, u32, usize),
            >::empty() && call.spec_outputs() == Seq::<(Seq<usize>, u32, u32, usize)>::empty()
                && call.spec_wf(),
            r matches Err(e) ==> spec_is_status_error(e, STATUS_NOT_FOUND),
    {
        let target = full_name.as_bytes_vec();
        let mut i: usize = 0;
        while i < self.exports.len()
            invariant
                i <= self.exports@.len(),
                target@ == spec_name_bytes(full_name@),
                forall|j: int| 0 <= j < i ==> self.spec_exports()[j] != target@,
            decreases self.exports@.len() - i,
        {
            if bytes_equal(&self.exports[i], &target) {
                proof {
                    assert(self.spec_exports()[i as int] == target@);
                }
                return Ok(IreeRuntimeCall::new_initialized(target));
            }
            i += 1;
        }
        proof {
            assert(!self.spec_exports().contains(target@));
        }
        Err(crate::err::status_error(STATUS_NOT_FOUND))
    }
}

/// The law that ties the instance's host allocator to session creation: an
/// instance records a usable host allocator when it is created, and session
/// creation succeeds on every usable allocator, so the allocator an
/// instance hands out is always accepted by subsequent session creation.
pub proof fn lemma_host_allocator_accepted(instance: &IreeRuntimeInstance)
    requires
        instance.spec_host_allocator().spec_usable(),
    ensures
        spec_session_creation_ok(&instance.spec_host_allocator()),
{
}

} // verus!
