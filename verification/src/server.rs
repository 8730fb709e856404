//! The service's decisions on one incoming request: what is done for which
//! method, and the answer to a request once its symbol files are fetched.

use crate::coordinator::{
    client, lemma_one_entry_per_frame, resolutions, response, ResponseView,
};
use crate::stack_map::{bucket_at, first_frames, stack_map_of, stacks_to_stack_map};
use crate::{SymbolRequest, SymbolResponse};
use vstd::prelude::*;

verus! {

/// The method of an incoming request.
#[derive(Clone, Copy, Debug, PartialEq, Eq, Structural)]
pub enum RequestMethod {
    Get,
    Post,
    /// Any other method.
    Other,
}

/// What the service does with a request.
pub enum ServerStep {
    /// Fetch the symbol files of the request's modules, symbolicate, and
    /// answer with the response.
    Symbolicate(SymbolRequest),
    /// Answer with the text that identifies the service.
    Identify,
    /// Refuse the request: its body is not a symbolication request.
    MalformedRequest,
    /// Refuse the request: its method is not allowed.
    MethodNotAllowed,
}

/// The response to `request`, given the fetched symbol file of each of its
/// modules: the frames of its first list are sorted into the stack map, and
/// the stack map is resolved module by module.
pub open spec fn request_response(
    request: SymbolRequest,
    fetched: Seq<Option<Vec<u8>>>,
) -> ResponseView {
    let stack_map = stack_map_of(first_frames(request.stacks@));
    response(bucket_at(stack_map, -1), resolutions(request.memoryMap@, stack_map, fetched))
}

/// The response to a request has one flag per module of the request's
/// memory map, whatever the request holds.
pub proof fn lemma_response_flags(request: SymbolRequest, fetched: Seq<Option<Vec<u8>>>)
    ensures
        request_response(request, fetched).known_modules.len() == request.memoryMap@.len(),
{
}

/// The response to a request whose frames all name `-1` or a position of
/// the memory map holds one list of entries, with exactly one entry per
/// frame of the request's first frame list.
pub proof fn lemma_response_entries(request: SymbolRequest, fetched: Seq<Option<Vec<u8>>>)
    requires
        forall|i: int|
            0 <= i < first_frames(request.stacks@).len() ==> -1 <= (#[trigger] first_frames(
                request.stacks@,
            )[i]).0 < request.memoryMap@.len(),
    ensures
        request_response(request, fetched).symbolicated_stacks.len() == 1,
        request_response(request, fetched).symbolicated_stacks[0].len() == first_frames(
            request.stacks@,
        ).len(),
{
    lemma_one_entry_per_frame(first_frames(request.stacks@), request.memoryMap@, fetched);
}

/// Decides what to do with a request from its method and from its body as
/// far as it could be decoded (`None`: it could not). Only a `POST` is
/// symbolicated; a `GET` is answered with the service's identification, and
/// every other method is refused.
pub fn server(method: RequestMethod, decoded: Option<SymbolRequest>) -> (step: ServerStep)
    ensures
        match method {
            RequestMethod::Post => match decoded {
                Some(request) => step == ServerStep::Symbolicate(request),
                None => step is MalformedRequest,
            },
            RequestMethod::Get => step is Identify,
            RequestMethod::Other => step is MethodNotAllowed,
        },
{
    match method {
        RequestMethod::Post => match decoded {
            Some(request) => ServerStep::Symbolicate(request),
            None => ServerStep::MalformedRequest,
        },
        RequestMethod::Get => ServerStep::Identify,
        RequestMethod::Other => ServerStep::MethodNotAllowed,
    }
}

/// Answers a decoded request once the symbol file of each of its modules
/// has been fetched: `fetched[i]` holds the bytes for the module at
/// position `i` of the request's memory map, or `None` where the fetch
/// failed.
pub fn symbolicate(request: SymbolRequest, fetched: Vec<Option<Vec<u8>>>) -> (resp: SymbolResponse)
    ensures
        resp@ == request_response(request, fetched@),
        resp.symbolicatedStacks@.len() == 1,
        resp.knownModules@.len() == request.memoryMap@.len(),
{
    let stack_map = stacks_to_stack_map(request.stacks);
    client(request.memoryMap, stack_map, fetched)
}

} // verus!
