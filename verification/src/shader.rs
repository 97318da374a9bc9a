//! Shader construction from an archive of compiled shader binaries.
//!
//! A shader ships as an in-memory tar archive holding the vertex and
//! fragment binaries. Construction extracts the entries whose names end in
//! the two expected suffixes, validates both binaries, and registers one
//! pipeline handle. Destruction is deferred through the device's reclamation
//! ledger, never synchronous.

use vstd::prelude::*;

use crate::device::Device;
use crate::error::Error;
use crate::spirv::spec_decode;
use crate::spirv::decode_spirv;

verus! {

/// Fixed-function options of a shader's pipeline.
#[derive(Debug, Clone, Copy, PartialEq, Eq, Structural)]
pub struct ShaderOptions {
    pub depth_test: bool,
    pub lines: bool,
    pub front_cull: bool,
}

impl Default for ShaderOptions {
    /// Depth testing on, filled triangles, back-face culling.
    fn default() -> (r: ShaderOptions)
        ensures
            r == (ShaderOptions { depth_test: true, lines: false, front_cull: false }),
    {
        ShaderOptions { depth_test: true, lines: false, front_cull: false }
    }
}

/// What reading an in-memory tar archive yields: `None` for a malformed
/// archive, else the entries as (name, contents) pairs in archive order.
pub uninterp spec fn tar_entries_of(bytes: Seq<u8>) -> Option<Seq<(Seq<u8>, Seq<u8>)>>;

/// Relies on tar's `Archive`, `Entry::path_bytes` and the entry reader:
/// reading the entries of an in-memory archive is a function of the archive
/// bytes alone.
#[verifier::external_body]
fn read_archive_entries(bytes: &[u8]) -> (r: Option<Vec<(Vec<u8>, Vec<u8>)>>)
    ensures
        match r {
            Some(entries) => {
                &&& tar_entries_of(bytes@) is Some
                &&& entries@.len() == tar_entries_of(bytes@)->0.len()
                &&& forall|i: int|
                    0 <= i < entries@.len() ==> (#[trigger] entries@[i]).0@ == tar_entries_of(
                        bytes@,
                    )->0[i].0 && entries@[i].1@ == tar_entries_of(bytes@)->0[i].1
            },
            None => tar_entries_of(bytes@) is None,
        },
{
    let mut archive = tar::Archive::new(bytes);
    let mut out: Vec<(Vec<u8>, Vec<u8>)> = Vec::new();
    let entries = match archive.entries() { Ok(e) => e, Err(_) => return None };
    for entry in entries {
        let mut entry = match entry { Ok(e) => e, Err(_) => return None };
        let name = entry.path_bytes().to_vec();
        let mut data = Vec::new();
        if std::io::Read::read_to_end(&mut entry, &mut data).is_err() { return None; }
        out.push((name, data));
    }
    Some(out)
}

/// Whether a byte string ends with the given suffix.
pub open spec fn spec_ends_with(s: Seq<u8>, suffix: Seq<u8>) -> bool {
    s.len() >= suffix.len() && s.subrange(s.len() - suffix.len(), s.len() as int) == suffix
}

/// Whether a byte string ends with the given suffix.
pub fn bytes_end_with(s: &Vec<u8>, suffix: &Vec<u8>) -> (r: bool)
    ensures
        r == spec_ends_with(s@, suffix@),
{
    if s.len() < suffix.len() {
        return false;
    }
    let start = s.len() - suffix.len();
    let mut j: usize = 0;
    while j < suffix.len()
        invariant
            suffix@.len() <= s@.len(),
            s@.len() <= usize::MAX,
            start == s@.len() - suffix@.len(),
            j <= suffix@.len(),
            forall|k: int| 0 <= k < j ==> s@[start + k] == suffix@[k],
        decreases suffix@.len() - j,
    {
        if s[start + j] != suffix[j] {
            assert(s@.subrange(start as int, s@.len() as int)[j as int] != suffix@[j as int]);
            return false;
        }
        j = j + 1;
    }
    assert(s@.subrange(start as int, s@.len() as int) =~= suffix@);
    true
}

/// Whether the last path component of an entry name is exactly `suffix`:
/// the name equals the suffix, or the suffix follows a `/`.
pub open spec fn spec_component_is(s: Seq<u8>, suffix: Seq<u8>) -> bool {
    &&& spec_ends_with(s, suffix)
    &&& (s.len() == suffix.len() || s[s.len() - suffix.len() - 1] == 0x2fu8)
}

/// Whether the last path component of an entry name is exactly `suffix`.
pub fn component_is(s: &Vec<u8>, suffix: &Vec<u8>) -> (r: bool)
    ensures
        r == spec_component_is(s@, suffix@),
{
    if !bytes_end_with(s, suffix) {
        return false;
    }
    if s.len() == suffix.len() {
        return true;
    }
    s[s.len() - suffix.len() - 1] == 0x2f
}

/// The bytes of the vertex binary's name suffix, "vert.spv".
pub open spec fn spec_vert_suffix() -> Seq<u8> {
    seq![0x76u8, 0x65u8, 0x72u8, 0x74u8, 0x2eu8, 0x73u8, 0x70u8, 0x76u8]
}

/// The bytes of the fragment binary's name suffix, "frag.spv".
pub open spec fn spec_frag_suffix() -> Seq<u8> {
    seq![0x66u8, 0x72u8, 0x61u8, 0x67u8, 0x2eu8, 0x73u8, 0x70u8, 0x76u8]
}

fn vert_suffix() -> (r: Vec<u8>)
    ensures
        r@ == spec_vert_suffix(),
{
    let mut v: Vec<u8> = Vec::new();
    v.push(0x76);
    v.push(0x65);
    v.push(0x72);
    v.push(0x74);
    v.push(0x2e);
    v.push(0x73);
    v.push(0x70);
    v.push(0x76);
    assert(v@ =~= spec_vert_suffix());
    v
}

fn frag_suffix() -> (r: Vec<u8>)
    ensures
        r@ == spec_frag_suffix(),
{
    let mut v: Vec<u8> = Vec::new();
    v.push(0x66);
    v.push(0x72);
    v.push(0x61);
    v.push(0x67);
    v.push(0x2e);
    v.push(0x73);
    v.push(0x70);
    v.push(0x76);
    assert(v@ =~= spec_frag_suffix());
    v
}

/// The concatenated contents of the entries whose last path component is
/// exactly `suffix`, in archive order.
pub open spec fn spec_collected(entries: Seq<(Seq<u8>, Seq<u8>)>, suffix: Seq<u8>) -> Seq<u8>
    decreases entries.len(),
{
    if entries.len() == 0 {
        Seq::empty()
    } else {
        spec_collected(entries.drop_last(), suffix) + if spec_component_is(
            entries.last().0,
            suffix,
        ) {
            entries.last().1
        } else {
            Seq::empty()
        }
    }
}

/// Collect the contents of the entries whose last path component is exactly
/// `suffix`.
fn collect_entries(entries: &Vec<(Vec<u8>, Vec<u8>)>, suffix: &Vec<u8>, ghost_entries: Ghost<
    Seq<(Seq<u8>, Seq<u8>)>,
>) -> (r: Vec<u8>)
    requires
        ghost_entries@.len() == entries@.len(),
        forall|i: int|
            0 <= i < entries@.len() ==> (#[trigger] entries@[i]).0@ == ghost_entries@[i].0
                && entries@[i].1@ == ghost_entries@[i].1,
    ensures
        r@ == spec_collected(ghost_entries@, suffix@),
{
    let mut out: Vec<u8> = Vec::new();
    let mut i: usize = 0;
    while i < entries.len()
        invariant
            ghost_entries@.len() == entries@.len(),
            forall|k: int|
                0 <= k < entries@.len() ==> (#[trigger] entries@[k]).0@ == ghost_entries@[k].0
                    && entries@[k].1@ == ghost_entries@[k].1,
            i <= entries@.len(),
            out@ == spec_collected(ghost_entries@.take(i as int), suffix@),
        decreases entries@.len() - i,
    {
        if component_is(&entries[i].0, suffix) {
            let data = &entries[i].1;
            let mut j: usize = 0;
            while j < data.len()
                invariant
                    data == &entries[i as int].1,
                    i < entries@.len(),
                    j <= data@.len(),
                    out@ == spec_collected(ghost_entries@.take(i as int), suffix@) + data@.take(
                        j as int,
                    ),
                decreases data@.len() - j,
            {
                out.push(data[j]);
                assert(data@.take(j + 1) =~= data@.take(j as int).push(data@[j as int]));
                j = j + 1;
            }
            assert(data@.take(data@.len() as int) =~= data@);
        }
        proof {
            let taken = ghost_entries@.take(i + 1);
            assert(taken.drop_last() =~= ghost_entries@.take(i as int));
            assert(taken.last() == ghost_entries@[i as int]);
        }
        i = i + 1;
    }
    assert(ghost_entries@.take(entries@.len() as int) =~= ghost_entries@);
    out
}

/// The vertex and fragment binaries of a shader archive: the concatenated
/// contents of the entries whose file name is `vert.spv` and `frag.spv`.
pub fn shader_sources_from_archive(bytes: &[u8]) -> (r: Result<(Vec<u8>, Vec<u8>), Error>)
    ensures
        match r {
            Ok(sources) => {
                &&& tar_entries_of(bytes@) is Some
                &&& sources.0@ == spec_collected(tar_entries_of(bytes@)->0, spec_vert_suffix())
                &&& sources.1@ == spec_collected(tar_entries_of(bytes@)->0, spec_frag_suffix())
            },
            Err(e) => e == Error::InvalidFile && tar_entries_of(bytes@) is None,
        },
{
    let entries = match read_archive_entries(bytes) {
        Some(e) => e,
        None => {
            return Err(Error::InvalidFile);
        },
    };
    let ghost_entries: Ghost<Seq<(Seq<u8>, Seq<u8>)>> = Ghost(tar_entries_of(bytes@)->0);
    let vert = collect_entries(&entries, &vert_suffix(), ghost_entries);
    let frag = collect_entries(&entries, &frag_suffix(), ghost_entries);
    Ok((vert, frag))
}

/// Whether the archive is readable and both collected binaries validate:
/// exactly the archives a shader can be built from.
pub open spec fn spec_shader_buildable(archive: Seq<u8>) -> bool {
    &&& tar_entries_of(archive) is Some
    &&& spec_decode(spec_collected(tar_entries_of(archive)->0, spec_vert_suffix())) is Some
    &&& spec_decode(spec_collected(tar_entries_of(archive)->0, spec_frag_suffix())) is Some
}

/// Whether the archive is readable but one of its collected binaries fails
/// validation.
pub open spec fn spec_shader_binary_invalid(archive: Seq<u8>) -> bool {
    &&& tar_entries_of(archive) is Some
    &&& (spec_decode(spec_collected(tar_entries_of(archive)->0, spec_vert_suffix())) is None
        || spec_decode(spec_collected(tar_entries_of(archive)->0, spec_frag_suffix())) is None)
}

/// A GPU program: a compiled, fully configured pipeline.
#[derive(Debug, Clone, Copy, PartialEq, Eq, Structural)]
pub struct Shader {
    /// The pipeline handle the device registered for this shader.
    pub handle: u64,
    /// The fixed-function options the pipeline was configured with; the core
    /// carries them for the platform layer, which builds the real pipeline.
    pub options: ShaderOptions,
}

impl Shader {
    /// Build a shader from a tar archive of compiled binaries.
    ///
    /// Success is owed: a readable archive whose two collected binaries both
    /// validate always builds, registering one fresh pipeline handle. Both
    /// binaries are validated before any state changes, so a failure leaks
    /// nothing: a malformed archive is [`Error::InvalidFile`], a bad binary
    /// [`Error::InvalidSpirv`], each exactly on those inputs, and the device
    /// is unchanged on either.
    pub fn new(device: &mut Device, archive: &[u8], options: ShaderOptions) -> (r: Result<
        Shader,
        Error,
    >)
        requires
            old(device).wf(),
            old(device).next_handle < u64::MAX,
        ensures
            final(device).wf(),
            r is Ok <==> spec_shader_buildable(archive@),
            match r {
                Ok(shader) => {
                    &&& shader.handle == old(device).next_handle
                    &&& shader.options == options
                    &&& *final(device) == (Device {
                        next_handle: (old(device).next_handle + 1) as u64,
                        ..*old(device)
                    })
                },
                Err(e) => {
                    &&& *final(device) == *old(device)
                    &&& (e == Error::InvalidFile <==> tar_entries_of(archive@) is None)
                    &&& (e == Error::InvalidSpirv <==> spec_shader_binary_invalid(archive@))
                    &&& (e == Error::InvalidFile || e == Error::InvalidSpirv)
                },
            },
    {
        let (vert, frag) = match shader_sources_from_archive(archive) {
            Ok(s) => s,
            Err(e) => {
                return Err(e);
            },
        };
        // validate both binaries before registering anything
        let vert_words = match decode_spirv(vert.as_slice()) {
            Ok(w) => w,
            Err(e) => {
                return Err(e);
            },
        };
        let frag_words = match decode_spirv(frag.as_slice()) {
            Ok(w) => w,
            Err(e) => {
                return Err(e);
            },
        };
        let _ = vert_words;
        let _ = frag_words;
        let handle = device.create_pipeline();
        Ok(Shader { handle, options })
    }

    /// Destroy the shader: its pipeline is queued on the current frame slot
    /// and freed only when that slot's fence next proves the GPU done.
    pub fn destroy(self, device: &mut Device)
        requires
            old(device).wf(),
        ensures
            final(device).wf(),
            crate::device::spec_deferred(*old(device), *final(device)),
            final(device).spec_slot(old(device).current as int).ledger.pipelines@ == old(
                device,
            ).spec_slot(old(device).current as int).ledger.pipelines@.push(self.handle),
            final(device).spec_slot(old(device).current as int).ledger.buffers@ == old(
                device,
            ).spec_slot(old(device).current as int).ledger.buffers@,
            final(device).spec_slot(old(device).current as int).ledger.images@ == old(
                device,
            ).spec_slot(old(device).current as int).ledger.images@,
    {
        device.destroy_pipeline(self.handle);
    }
}

} // verus!
