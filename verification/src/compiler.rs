//! The compiled-module collaborator's interface: the metadata record a
//! module load carries, the request and response framing spoken with the
//! compiler worker, and the merge of a compile response into the module's
//! metadata. The compiler itself is an external collaborator running in a
//! worker; any failure of it is a load error, never a dispatch fault.

use crate::isolate::Buf;
use crate::isolate::CallDispatcher;
use crate::isolate::Op;
use crate::isolate::be32;
use crate::isolate::be32_val;
use crate::state::State;
use crate::workers::WorkerBehavior;
use crate::workers::WorkerChannels;
use vstd::prelude::*;
use vstd::string::StringExecFns;
use vstd::string::StringSliceAdditionalSpecFns;

verus! {

/// How a module's source is interpreted.
#[derive(Clone, Copy, Debug, PartialEq, Eq, Structural)]
pub enum MediaType {
    JavaScript,
    TypeScript,
    Json,
    Unknown,
}

/// What a module load carries: the module's identity, its source, and the
/// compiled output and source map once the compiler collaborator has
/// answered.
pub struct ModuleMetaData {
    pub module_name: String,
    pub filename: String,
    pub media_type: MediaType,
    pub source_code: String,
    pub maybe_output_code_filename: Option<String>,
    pub maybe_output_code: Option<String>,
    pub maybe_source_map_filename: Option<String>,
    pub maybe_source_map: Option<String>,
}

impl ModuleMetaData {
    /// The source the engine executes for this module: a JSON module is
    /// wrapped as a default export of its text, and any other module runs
    /// its compiled output when one exists, its plain source otherwise.
    pub fn js_source(&self) -> (r: String)
        ensures
            self.media_type is Json ==> r@ == "export default "@ + self.source_code@ + ";"@,
            !(self.media_type is Json) ==> match self.maybe_output_code {
                Option::Some(oc) => r@ == oc@,
                Option::None => r@ == self.source_code@,
            },
    {
        match self.media_type {
            MediaType::Json => {
                let head: String = "export default ".to_owned();
                let with_source = head.concat(self.source_code.as_str());
                with_source.concat(";")
            },
            _ => match &self.maybe_output_code {
                Option::Some(oc) => oc.clone(),
                Option::None => self.source_code.clone(),
            },
        }
    }
}

/// The behavior of the compiler worker's isolate: it owns its context
/// state, and every compiler call is answered asynchronously through the
/// worker's message channel. The stored channel pair models the internal
/// halves the behavior keeps for its run loop; that loop is the
/// embedder's, so nothing in the library reads them — both sides message
/// through the worker's handle-table entry.
pub struct CompilerBehavior {
    pub state: State,
    pub channels: Option<WorkerChannels>,
}

impl CompilerBehavior {
    /// A compiler behavior over the given context state, not yet joined to
    /// a parent.
    pub fn new(state: State) -> (b: CompilerBehavior)
        ensures
            b.state == state,
            b.channels is None,
    {
        CompilerBehavior { state, channels: None }
    }
}

impl CallDispatcher for CompilerBehavior {
    /// Every compiler call completes asynchronously: the compile result
    /// travels back over the worker channel, not the direct response path.
    fn dispatch(&mut self, control: &[u8], zero_copy: Option<Buf>) -> (r: Op)
        ensures
            r is Async,
    {
        Op::Async
    }
}

impl WorkerBehavior for CompilerBehavior {
    fn set_internal_channels(&mut self, worker_channels: WorkerChannels) {
        self.channels = Some(worker_channels);
    }
}

/// Appends the four big-endian bytes of `n`.
fn push_be32(out: &mut Vec<u8>, n: u32)
    ensures
        final(out)@ == old(out)@ + be32(n),
{
    proof {
        assert((n >> 24) < 256 && ((n >> 16) & 0xff) < 256 && ((n >> 8) & 0xff) < 256 && (n & 0xff)
            < 256) by (bit_vector);
    }
    out.push((n >> 24) as u8);
    out.push(((n >> 16) & 0xff) as u8);
    out.push(((n >> 8) & 0xff) as u8);
    out.push((n & 0xff) as u8);
    proof {
        assert(final(out)@ =~= old(out)@ + be32(n));
    }
}

/// Appends every byte of `bytes`.
fn push_bytes(out: &mut Vec<u8>, bytes: &[u8])
    ensures
        final(out)@ == old(out)@ + bytes@,
{
    let n = bytes.len();
    let mut i: usize = 0;
    proof {
        assert(old(out)@ + bytes@.take(0) =~= old(out)@);
    }
    while i < n
        invariant
            n == bytes@.len(),
            0 <= i <= n,
            out@ == old(out)@ + bytes@.take(i as int),
        decreases n - i,
    {
        let b = bytes[i];
        out.push(b);
        proof {
            assert(out@ =~= old(out)@ + bytes@.take(i as int + 1));
        }
        i = i + 1;
    }
    proof {
        assert(old(out)@ + bytes@.take(n as int) =~= old(out)@ + bytes@);
    }
}

/// Encodes a compile request for the compiler worker: the length of the
/// specifier's bytes, then the specifier, then the referrer.
pub fn req(specifier: &str, referrer: &str) -> (r: Buf)
    requires
        specifier@.len() <= u32::MAX,
        specifier.spec_bytes().len() <= u32::MAX,
    ensures
        r@ == be32(specifier.spec_bytes().len() as u32) + specifier.spec_bytes()
            + referrer.spec_bytes(),
{
    let sb = specifier.as_bytes();
    let rb = referrer.as_bytes();
    let mut out: Vec<u8> = Vec::new();
    push_be32(&mut out, sb.len() as u32);
    push_bytes(&mut out, sb);
    push_bytes(&mut out, rb);
    proof {
        assert(out@ =~= be32(specifier.spec_bytes().len() as u32) + specifier.spec_bytes()
            + referrer.spec_bytes());
    }
    out
}

/// Whether a compile-response buffer is well formed: two presence flags,
/// the length of the output-code part, the part itself, and the source map
/// as the remainder.
pub open spec fn compile_response_wf(b: Seq<u8>) -> bool {
    &&& b.len() >= 6
    &&& (b[0] == 0 || b[0] == 1)
    &&& (b[1] == 0 || b[1] == 1)
    &&& (b[0] == 0 ==> be32_val(b[2], b[3], b[4], b[5]) == 0)
    &&& 6 + be32_val(b[2], b[3], b[4], b[5]) <= b.len()
    &&& (b[1] == 0 ==> b.len() == 6 + be32_val(b[2], b[3], b[4], b[5]))
}

/// The output-code part of a well-formed compile response.
pub open spec fn response_output_code(b: Seq<u8>) -> Option<Seq<u8>> {
    if b[0] == 1 {
        Option::Some(b.subrange(6, 6 + be32_val(b[2], b[3], b[4], b[5])))
    } else {
        Option::None
    }
}

/// The source-map part of a well-formed compile response.
pub open spec fn response_source_map(b: Seq<u8>) -> Option<Seq<u8>> {
    if b[1] == 1 {
        Option::Some(b.skip(6 + be32_val(b[2], b[3], b[4], b[5])))
    } else {
        Option::None
    }
}

/// Encodes what the compiler answered — its output code and source map,
/// each optional — as a compile-response buffer.
pub fn encode_compile_response(output_code: &Option<Vec<u8>>, source_map: &Option<Vec<u8>>) -> (r:
    Buf)
    requires
        output_code is Some ==> (output_code->Some_0)@.len() <= u32::MAX,
    ensures
        compile_response_wf(r@),
        response_output_code(r@) == (match *output_code {
            Option::Some(oc) => Option::Some(oc@),
            Option::None => Option::<Seq<u8>>::None,
        }),
        response_source_map(r@) == (match *source_map {
            Option::Some(sm) => Option::Some(sm@),
            Option::None => Option::<Seq<u8>>::None,
        }),
{
    let mut out: Vec<u8> = Vec::new();
    match output_code {
        Option::Some(_) => out.push(1),
        Option::None => out.push(0),
    }
    match source_map {
        Option::Some(_) => out.push(1),
        Option::None => out.push(0),
    }
    let n1: u32 = match output_code {
        Option::Some(oc) => oc.len() as u32,
        Option::None => 0,
    };
    push_be32(&mut out, n1);
    match output_code {
        Option::Some(oc) => push_bytes(&mut out, oc.as_slice()),
        Option::None => {
        },
    }
    match source_map {
        Option::Some(sm) => push_bytes(&mut out, sm.as_slice()),
        Option::None => {
        },
    }
    proof {
        crate::isolate::lemma_be32_round_trip(n1);
        assert(out@[0] == (if *output_code is Some {
            1u8
        } else {
            0u8
        }));
        assert(out@.subrange(2, 6) =~= be32(n1));
        if *output_code is Some {
            assert(out@.subrange(6, 6 + n1 as int) =~= (output_code->Some_0)@);
        }
        match source_map {
            Option::Some(sm) => {
                assert(out@.skip(6 + n1 as int) =~= sm@);
            },
            Option::None => {
                assert(out@.len() == 6 + n1);
            },
        }
    }
    out
}

/// Decodes a compile-response buffer back into the compiler's answer;
/// nothing exactly when the buffer is not well formed.
pub fn decode_compile_response(bytes: &[u8]) -> (r: Option<(Option<Vec<u8>>, Option<Vec<u8>>)>)
    ensures
        (r is Some) <==> compile_response_wf(bytes@),
        r is Some ==> ({
            let parts = r->Some_0;
            &&& ((parts.0) is Some <==> response_output_code(bytes@) is Some)
            &&& ((parts.1) is Some <==> response_source_map(bytes@) is Some)
            &&& (parts.0 is Some ==> ((parts.0)->Some_0)@ == response_output_code(
                bytes@,
            )->Some_0)
            &&& (parts.1 is Some ==> ((parts.1)->Some_0)@ == response_source_map(
                bytes@,
            )->Some_0)
        }),
{
    if bytes.len() < 6 {
        return None;
    }
    let f1 = bytes[0];
    let f2 = bytes[1];
    if f1 > 1 || f2 > 1 {
        return None;
    }
    let n1: u32 = ((bytes[2] as u32) << 24) | ((bytes[3] as u32) << 16) | ((bytes[4] as u32) << 8)
        | (bytes[5] as u32);
    if f1 == 0 && n1 != 0 {
        return None;
    }
    if (n1 as u64) > (bytes.len() - 6) as u64 {
        return None;
    }
    let n1s: usize = n1 as usize;
    if f2 == 0 && bytes.len() - 6 != n1s {
        return None;
    }
    let part1: Option<Vec<u8>> = if f1 == 1 {
        Some(vstd::slice::slice_to_vec(vstd::slice::slice_subrange(bytes, 6, 6 + n1s)))
    } else {
        None
    };
    let part2: Option<Vec<u8>> = if f2 == 1 {
        Some(vstd::slice::slice_to_vec(vstd::slice::slice_subrange(bytes, 6 + n1s, bytes.len())))
    } else {
        None
    };
    proof {
        assert(bytes@.skip(6 + n1 as int) =~= bytes@.subrange(6 + n1 as int, bytes@.len() as int));
    }
    Some((part1, part2))
}

/// Merges the compiler collaborator's answer into a module's metadata: the
/// module keeps its identity, media type and source, takes the compiled
/// output and source map from the response, and carries no output or
/// source-map file names.
pub fn compile_sync(
    module_meta_data: &ModuleMetaData,
    output_code: Option<String>,
    source_map: Option<String>,
) -> (r: ModuleMetaData)
    ensures
        r.module_name@ == module_meta_data.module_name@,
        r.filename@ == module_meta_data.filename@,
        r.media_type == module_meta_data.media_type,
        r.source_code@ == module_meta_data.source_code@,
        r.maybe_output_code == output_code,
        r.maybe_source_map == source_map,
        r.maybe_output_code_filename is None,
        r.maybe_source_map_filename is None,
{
    ModuleMetaData {
        module_name: module_meta_data.module_name.clone(),
        filename: module_meta_data.filename.clone(),
        media_type: module_meta_data.media_type,
        source_code: module_meta_data.source_code.clone(),
        maybe_output_code_filename: None,
        maybe_output_code: output_code,
        maybe_source_map_filename: None,
        maybe_source_map: source_map,
    }
}

/// Registers the op through which the compiler worker reports its result.
pub fn init(table: &mut crate::registry::CallTable)
    requires
        old(table).registered().len() + 1 < u32::MAX,
    ensures
        final(table).registered().contains("op_compiler_respond"@),
{
    let r = table.register_op("op_compiler_respond");
    proof {
        assert(table.registered()[r as int] == "op_compiler_respond"@);
        assert(table.registered().contains("op_compiler_respond"@));
    }
}

/// The handle of the one shared compiler worker, kept once it has been
/// started.
pub struct CompilerShared {
    pub rid: u32,
}

/// The shared compiler worker's handle: started on first use and reused
/// afterwards. A caller that finds the slot filled gets the stored handle
/// back unchanged; one that finds it empty stores and gets the handle the
/// spawned worker received.
pub fn lazy_start(slot: &mut Option<CompilerShared>, spawned_rid: u32) -> (rid: u32)
    ensures
        match *old(slot) {
            Option::Some(shared) => rid == shared.rid && *final(slot) == *old(slot),
            Option::None => rid == spawned_rid && *final(slot) == Option::<CompilerShared>::Some(
                CompilerShared { rid: spawned_rid },
            ),
        },
{
    match slot {
        Option::Some(shared) => shared.rid,
        Option::None => {
            *slot = Some(CompilerShared { rid: spawned_rid });
            spawned_rid
        },
    }
}

/// Stores the compiler's textual response exactly once per request; a
/// response may not land on a slot still holding an earlier one.
pub fn op_compiler_respond(response: &mut Option<String>, args: String)
    requires
        *old(response) is None,
    ensures
        *final(response) == Option::<String>::Some(args),
{
    *response = Some(args);
}

} // verus!
