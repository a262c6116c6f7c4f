//! Remote method invocation: method signatures, framing of invocation
//! bytes, and routing of incoming payloads to their handlers.

use vstd::prelude::*;

use crate::middleware::InvokeError;
use crate::ser_de::{has_prefix, prepend_header, starts_with};

verus! {

/// The signature of a method call, used for routing remote invocations
/// to their respective methods.
pub trait RemoteMethodSignature {
    /// The bytes of the signature.
    spec fn signature_spec() -> Seq<u8>;

    /// Returns the method signature of a remote interface method.
    ///
    /// Used for routing method calls on the server side.
    fn remote_method_signature() -> (res: &'static [u8])
        ensures
            res@ == Self::signature_spec(),
    ;
}

/// This trait is used for differentiating the variant of a payload.
pub trait RemoteRequest {
    /// Checks if the payload is a request
    fn is_request(&self) -> bool;

    /// Checks if the payload is a response
    fn is_response(&self) -> bool;
}

/// A type that is remotely invocable: its encoded body travels behind its
/// method signature.
pub trait RemotelyInvocable: RemoteMethodSignature {
    /// The invocation bytes for an encoded body: the signature, then the body.
    fn invoke_bytes(body: &[u8]) -> (res: Vec<u8>)
        ensures
            res@ == Self::signature_spec() + body@,
    {
        frame_invocation(Self::remote_method_signature(), body)
    }

    /// Checks that the bytes carry this method's signature and returns the
    /// encoded body behind it.
    fn process_invocation(bytes: &[u8]) -> (res: Result<&[u8], InvokeError>)
        ensures
            has_prefix(bytes@, Self::signature_spec()) ==> (res matches Ok(body) && body@
                == bytes@.subrange(Self::signature_spec().len() as int, bytes@.len() as int)),
            !has_prefix(bytes@, Self::signature_spec()) ==> res == Err::<&[u8], InvokeError>(
                InvokeError::SignatureNotMatched,
            ),
    {
        invocation_body(Self::remote_method_signature(), bytes)
    }
}

impl<T: RemoteMethodSignature> RemotelyInvocable for T {

}

/// Frames an encoded invocation body behind its method signature.
pub fn frame_invocation(signature: &[u8], body: &[u8]) -> (res: Vec<u8>)
    ensures
        res@ == signature@ + body@,
{
    prepend_header(signature, body)
}

/// Checks that `bytes` start with `signature` and returns the body that
/// follows it.
pub fn invocation_body<'a>(signature: &[u8], bytes: &'a [u8]) -> (res: Result<&'a [u8], InvokeError>)
    ensures
        has_prefix(bytes@, signature@) ==> (res matches Ok(body) && body@ == bytes@.subrange(
            signature@.len() as int,
            bytes@.len() as int,
        )),
        !has_prefix(bytes@, signature@) ==> res == Err::<&[u8], InvokeError>(
            InvokeError::SignatureNotMatched,
        ),
{
    if starts_with(bytes, signature) {
        Ok(&bytes[signature.len()..bytes.len()])
    } else {
        Err(InvokeError::SignatureNotMatched)
    }
}

/// A framed invocation is accepted under its own signature and gives back
/// the body it was framed with.
pub proof fn lemma_invocation_roundtrip(signature: Seq<u8>, body: Seq<u8>)
    ensures
        has_prefix(signature + body, signature),
        (signature + body).subrange(signature.len() as int, (signature + body).len() as int)
            == body,
{
    crate::ser_de::lemma_header_roundtrip(signature, body);
}

/// Index of the first signature in `sigs` that `payload` starts with.
pub open spec fn first_matching(sigs: Seq<Seq<u8>>, payload: Seq<u8>) -> Option<int>
    decreases sigs.len(),
{
    if sigs.len() == 0 {
        None
    } else if has_prefix(payload, sigs[0]) {
        Some(0)
    } else {
        match first_matching(sigs.drop_first(), payload) {
            Some(i) => Some(i + 1),
            None => None,
        }
    }
}

/// When no signature is a prefix of another, an invocation framed under a
/// signature is routed to that signature, whatever its body.
pub proof fn lemma_prefix_free_routing(sigs: Seq<Seq<u8>>, i: int, body: Seq<u8>)
    requires
        0 <= i < sigs.len(),
        forall|a: int, b: int|
            0 <= a < sigs.len() && 0 <= b < sigs.len() && a != b ==> !has_prefix(
                #[trigger] sigs[a],
                #[trigger] sigs[b],
            ),
    ensures
        first_matching(sigs, sigs[i] + body) == Some(i),
    decreases sigs.len(),
{
    let payload = sigs[i] + body;
    lemma_invocation_roundtrip(sigs[i], body);
    if i > 0 {
        let s0 = sigs[0];
        if has_prefix(payload, s0) {
            // the shorter of the two would be a prefix of the other
            if s0.len() <= sigs[i].len() {
                assert(sigs[i].subrange(0, s0.len() as int) =~= payload.subrange(0, s0.len() as int));
                assert(has_prefix(sigs[i], s0));
            } else {
                assert(s0.subrange(0, sigs[i].len() as int) =~= payload.subrange(
                    0,
                    sigs[i].len() as int,
                ));
                assert(has_prefix(s0, sigs[i]));
            }
            assert(false);
        }
        let rest = sigs.drop_first();
        assert(rest[i - 1] == sigs[i]);
        assert forall|a: int, b: int|
            0 <= a < rest.len() && 0 <= b < rest.len() && a != b implies !has_prefix(
            #[trigger] rest[a],
            #[trigger] rest[b],
        ) by {
            assert(rest[a] == sigs[a + 1] && rest[b] == sigs[b + 1]);
        }
        lemma_prefix_free_routing(rest, i - 1, body);
    }
}

/// The contents of each signature.
pub open spec fn sig_views(sigs: Seq<&[u8]>) -> Seq<Seq<u8>> {
    sigs.map_values(|s: &[u8]| s@)
}

/// Routes a payload to the first handler whose method signature it starts
/// with; `HandlerNotFound` when there is none.
pub fn route_payload(signatures: &[&[u8]], payload: &[u8]) -> (res: Result<usize, InvokeError>)
    ensures
        match first_matching(sig_views(signatures@), payload@) {
            Some(i) => res == Ok::<usize, InvokeError>(i as usize),
            None => res == Err::<usize, InvokeError>(InvokeError::HandlerNotFound),
        },
{
    let mut i: usize = 0;
    proof {
        assert(sig_views(signatures@).subrange(0, signatures@.len() as int) =~= sig_views(
            signatures@,
        ));
    }
    while i < signatures.len()
        invariant
            i <= signatures@.len(),
            first_matching(sig_views(signatures@), payload@) == match first_matching(
                sig_views(signatures@).subrange(i as int, signatures@.len() as int),
                payload@,
            ) {
                Some(j) => Some(j + i),
                None => None,
            },
        decreases signatures@.len() - i,
    {
        let ghost rest = sig_views(signatures@).subrange(i as int, signatures@.len() as int);
        proof {
            assert(rest.drop_first() =~= sig_views(signatures@).subrange(
                i + 1,
                signatures@.len() as int,
            ));
            assert(rest[0] == signatures@[i as int]@);
        }
        if starts_with(payload, signatures[i]) {
            return Ok(i);
        }
        i = i + 1;
    }
    proof {
        assert(sig_views(signatures@).subrange(i as int, signatures@.len() as int).len() == 0);
    }
    Err(InvokeError::HandlerNotFound)
}

} // verus!
