use vstd::prelude::*;
use crate::error::Error;

verus! {

/// The body of an HTTP exchange, over HTTP/1.1, HTTP/2 and HTTP/3 or
/// buffered in memory.
///
/// The parameters are the carriers of each form: `I` a native connection
/// body, `S` a boxed stream (HTTP/3 or plugin generated), `F` a buffered
/// body, `U` a protocol-upgrade handle and `T` a tunnel task.
pub enum VaneBody<I, S, F, U, T> {
    /// Native body of an HTTP/1.1 or HTTP/2 connection.
    Hyper(I),
    /// An HTTP/3 stream.
    H3(S),
    /// A boxed stream, for plugins such as CGI or FastCGI.
    Generic(S),
    /// Buffered memory, lazily filled or generated.
    Buffered(F),
    /// The upstream answered with Switching Protocols (WebSocket or another
    /// upgrade); holds the upstream's upgrade handle.
    SwitchingProtocols(U),
    /// A bridge that runs the tunnel task when it is polled, so that the
    /// tunnel starts only once the response has gone out.
    UpgradeBridge { tunnel_task: Option<T> },
    /// No body.
    Empty,
}

/// The payload of an L7 envelope.
pub enum PayloadState<I, S, F, U, T, B> {
    /// An HTTP body stream.
    Http(VaneBody<I, S, F, U, T>),
    /// A generic L7 stream.
    Generic,
    /// The payload has been fully buffered into memory.
    Buffered(B),
    /// No payload exists or it has been consumed.
    Empty,
}

/// The L7 envelope: the payloads of both directions of an exchange and the
/// client's upgrade handle.
pub struct Container<I, S, F, U, T, B> {
    /// The request body received from the client.
    pub request_body: PayloadState<I, S, F, U, T, B>,
    /// The response body that goes back to the client.
    pub response_body: PayloadState<I, S, F, U, T, B>,
    /// The client's protocol-upgrade handle, captured when the request asked
    /// for an upgrade, and consumed to bridge the connection.
    pub client_upgrade: Option<U>,
}

/// What to answer the client with once the flow has produced a response.
pub enum Settlement<P, U> {
    /// Both sides agreed to an upgrade: the client's and the upstream's
    /// handles, to be joined by a bidirectional tunnel.
    Bridge { client: U, upstream: U },
    /// The payload to send back as it stands.
    Ready(P),
}

/// The response payload the container holds after settling, and what
/// settling hands out. The response slot is always consumed. An upstream
/// upgrade is bridged when the client offered one (both handles are handed
/// out and the client's slot is emptied) and otherwise answered with an
/// empty body; any other payload is handed out unchanged. The request slot
/// is left as it is.
pub open spec fn settle_spec<I, S, F, U, T, B>(c: Container<I, S, F, U, T, B>) -> (
    Container<I, S, F, U, T, B>,
    Settlement<PayloadState<I, S, F, U, T, B>, U>,
) {
    match c.response_body {
        PayloadState::Http(VaneBody::SwitchingProtocols(upstream)) => match c.client_upgrade {
            Some(client) => (
                Container { request_body: c.request_body, response_body: PayloadState::Empty, client_upgrade: None },
                Settlement::Bridge { client, upstream },
            ),
            None => (
                Container { request_body: c.request_body, response_body: PayloadState::Empty, client_upgrade: None },
                Settlement::Ready(PayloadState::Empty),
            ),
        },
        other => (
            Container {
                request_body: c.request_body,
                response_body: PayloadState::Empty,
                client_upgrade: c.client_upgrade,
            },
            Settlement::Ready(other),
        ),
    }
}

/// Settling always consumes the response slot: afterwards the container's
/// response body is empty.
pub proof fn lemma_settle_consumes_response<I, S, F, U, T, B>(c: Container<I, S, F, U, T, B>)
    ensures
        settle_spec(c).0.response_body == PayloadState::<I, S, F, U, T, B>::Empty,
{
}

/// A bridge comes out exactly when the upstream switched protocols and the
/// client offered an upgrade, and it joins precisely those two handles;
/// the client's slot is then empty.
pub proof fn lemma_bridge_exactly_when_both_upgrade<I, S, F, U, T, B>(c: Container<I, S, F, U, T, B>)
    ensures
        (settle_spec(c).1 is Bridge) <==> (
            (c.response_body matches PayloadState::Http(VaneBody::SwitchingProtocols(_)))
            && c.client_upgrade is Some),
        settle_spec(c).1 matches Settlement::Bridge { client, upstream } ==> {
            &&& c.client_upgrade == Some(client)
            &&& c.response_body == PayloadState::<I, S, F, U, T, B>::Http(
                VaneBody::SwitchingProtocols(upstream),
            )
            &&& settle_spec(c).0.client_upgrade is None
        },
{
}

/// An upstream upgrade that the client did not ask for is answered with an
/// empty body.
pub proof fn lemma_unrequested_upgrade_is_empty<I, S, F, U, T, B>(c: Container<I, S, F, U, T, B>)
    requires
        c.response_body matches PayloadState::Http(VaneBody::SwitchingProtocols(_)),
        c.client_upgrade is None,
    ensures
        settle_spec(c).1 == Settlement::<PayloadState<I, S, F, U, T, B>, U>::Ready(PayloadState::Empty),
{
}

/// A response that is not an upgrade is handed out unchanged, and the
/// client's upgrade handle stays in the container.
pub proof fn lemma_other_payload_passes_through<I, S, F, U, T, B>(c: Container<I, S, F, U, T, B>)
    requires
        !(c.response_body matches PayloadState::Http(VaneBody::SwitchingProtocols(_))),
    ensures
        settle_spec(c).1 == Settlement::<PayloadState<I, S, F, U, T, B>, U>::Ready(c.response_body),
        settle_spec(c).0.client_upgrade == c.client_upgrade,
{
}

/// The client's upgrade handle is never dropped by settling: it either stays
/// in the container or is handed out in the bridge.
pub proof fn lemma_client_upgrade_kept_or_bridged<I, S, F, U, T, B>(
    c: Container<I, S, F, U, T, B>,
    handle: U,
)
    requires
        c.client_upgrade == Some(handle),
    ensures
        settle_spec(c).0.client_upgrade == Some(handle) || (settle_spec(c).1 matches Settlement::Bridge { client, .. } && client == handle),
{
}

/// Settling the response leaves the request slot as it is.
pub proof fn lemma_settle_leaves_request<I, S, F, U, T, B>(c: Container<I, S, F, U, T, B>)
    ensures
        settle_spec(c).0.request_body == c.request_body,
{
}

/// Settling a container that has been settled changes nothing and answers
/// with an empty body.
pub proof fn lemma_settle_twice<I, S, F, U, T, B>(c: Container<I, S, F, U, T, B>)
    ensures
        settle_spec(settle_spec(c).0) == (
            settle_spec(c).0,
            Settlement::<PayloadState<I, S, F, U, T, B>, U>::Ready(PayloadState::Empty),
        ),
{
}

impl<I, S, F, U, T, B> Container<I, S, F, U, T, B> {
    /// Takes the response payload out of the container and decides how to
    /// answer: bridge an upgrade both sides agreed to, drop an upgrade that
    /// the client did not ask for, or pass the payload on.
    pub fn settle_response(&mut self) -> (settled: Settlement<PayloadState<I, S, F, U, T, B>, U>)
        ensures
            (*final(self), settled) == settle_spec(*old(self)),
    {
        let mut payload = PayloadState::Empty;
        std::mem::swap(&mut payload, &mut self.response_body);
        match payload {
            PayloadState::Http(VaneBody::SwitchingProtocols(upstream)) => {
                match self.client_upgrade.take() {
                    Some(client) => Settlement::Bridge { client, upstream },
                    None => Settlement::Ready(PayloadState::Empty),
                }
            },
            other => Settlement::Ready(other),
        }
    }
}

/// The bytes a payload holds if it has been fully buffered into memory.
pub open spec fn buffered_bytes<I, S, F, U, T, B>(p: PayloadState<I, S, F, U, T, B>) -> Option<B> {
    match p {
        PayloadState::Buffered(bytes) => Some(bytes),
        _ => None,
    }
}

/// What has to be read to buffer a payload.
pub enum BodySource<I, S, F> {
    /// No body: the buffer is empty.
    Nothing,
    /// A native connection body, to be read to its end.
    Native(I),
    /// A boxed stream, to be read to its end.
    Stream(S),
    /// A buffered HTTP body, to be collected.
    Full(F),
}

/// The source to read when buffering a payload that can be buffered and is
/// not buffered yet.
pub open spec fn body_source<I, S, F, U, T, B>(p: PayloadState<I, S, F, U, T, B>) -> BodySource<I, S, F> {
    match p {
        PayloadState::Http(VaneBody::Hyper(i)) => BodySource::Native(i),
        PayloadState::Http(VaneBody::H3(s)) => BodySource::Stream(s),
        PayloadState::Http(VaneBody::Generic(s)) => BodySource::Stream(s),
        PayloadState::Http(VaneBody::Buffered(f)) => BodySource::Full(f),
        _ => BodySource::Nothing,
    }
}

/// Why a payload cannot be buffered, if it cannot: an upgraded connection
/// has no body, and a generic L7 stream is not read into memory.
pub open spec fn buffering_refusal<I, S, F, U, T, B>(p: PayloadState<I, S, F, U, T, B>) -> Option<Seq<char>> {
    match p {
        PayloadState::Http(VaneBody::SwitchingProtocols(_)) => Some("an upgraded connection has no body to buffer"@),
        PayloadState::Http(VaneBody::UpgradeBridge { .. }) => Some("an upgraded connection has no body to buffer"@),
        PayloadState::Generic => Some("buffering a generic L7 stream"@),
        _ => None,
    }
}

/// The first step of lazy buffering, from the slot `before` to the slot
/// `after` with the answer `r`. A buffered slot is left as it is and nothing
/// is to be read. A slot that cannot be buffered is left as it is and the
/// answer is `NotImplemented` with the reason. Any other slot is emptied
/// and its body handed out to be read.
pub open spec fn buffering_step<I, S, F, U, T, B>(
    before: PayloadState<I, S, F, U, T, B>,
    after: PayloadState<I, S, F, U, T, B>,
    r: Result<Option<BodySource<I, S, F>>, Error>,
) -> bool {
    if before is Buffered {
        after == before && r == Ok::<Option<BodySource<I, S, F>>, Error>(None)
    } else if buffering_refusal(before) is Some {
        &&& after == before
        &&& r matches Err(Error::NotImplemented(reason))
        &&& reason@ == buffering_refusal(before)->0
    } else {
        &&& after == PayloadState::<I, S, F, U, T, B>::Empty
        &&& r == Ok::<Option<BodySource<I, S, F>>, Error>(Some(body_source(before)))
    }
}

/// Lazy buffering reads a body at most once: once bytes are stored in a
/// slot, the buffering step reads nothing and changes nothing, and the slot
/// reads back those bytes; so buffering again gives the same bytes.
pub proof fn lemma_buffering_reads_at_most_once<I, S, F, U, T, B>(
    bytes: B,
    after: PayloadState<I, S, F, U, T, B>,
    r: Result<Option<BodySource<I, S, F>>, Error>,
)
    requires
        buffering_step(PayloadState::Buffered(bytes), after, r),
    ensures
        r == Ok::<Option<BodySource<I, S, F>>, Error>(None),
        after == PayloadState::<I, S, F, U, T, B>::Buffered(bytes),
        buffered_bytes(after) == Some(bytes),
{
}

/// A body that is handed out to be read leaves its slot empty, so it is not
/// handed out a second time: the next step on that slot reads nothing.
pub proof fn lemma_body_handed_out_once<I, S, F, U, T, B>(
    before: PayloadState<I, S, F, U, T, B>,
    after: PayloadState<I, S, F, U, T, B>,
    source: BodySource<I, S, F>,
    next: PayloadState<I, S, F, U, T, B>,
    r: Result<Option<BodySource<I, S, F>>, Error>,
)
    requires
        buffering_step(before, after, Ok(Some(source))),
        buffering_step(after, next, r),
    ensures
        after == PayloadState::<I, S, F, U, T, B>::Empty,
        r == Ok::<Option<BodySource<I, S, F>>, Error>(Some(BodySource::Nothing)),
{
}

/// The first buffering step hands out the slot's own body and no other: a
/// native connection body as `Native`, an HTTP/3 or plugin stream as
/// `Stream`, a buffered HTTP body as `Full`, each leaving the slot empty;
/// `Nothing` is handed out only for a slot that held no body.
pub proof fn lemma_buffering_hands_out_the_slots_own_body<I, S, F, U, T, B>(
    before: PayloadState<I, S, F, U, T, B>,
    after: PayloadState<I, S, F, U, T, B>,
    r: Result<Option<BodySource<I, S, F>>, Error>,
)
    requires
        buffering_step(before, after, r),
    ensures
        before matches PayloadState::Http(VaneBody::Hyper(i)) ==> r == Ok::<Option<BodySource<I, S, F>>, Error>(Some(BodySource::Native(i)))
            && after == PayloadState::<I, S, F, U, T, B>::Empty,
        before matches PayloadState::Http(VaneBody::H3(s)) ==> r == Ok::<Option<BodySource<I, S, F>>, Error>(Some(BodySource::Stream(s)))
            && after == PayloadState::<I, S, F, U, T, B>::Empty,
        before matches PayloadState::Http(VaneBody::Generic(s)) ==> r == Ok::<Option<BodySource<I, S, F>>, Error>(Some(BodySource::Stream(s)))
            && after == PayloadState::<I, S, F, U, T, B>::Empty,
        before matches PayloadState::Http(VaneBody::Buffered(f)) ==> r == Ok::<Option<BodySource<I, S, F>>, Error>(Some(BodySource::Full(f)))
            && after == PayloadState::<I, S, F, U, T, B>::Empty,
        r == Ok::<Option<BodySource<I, S, F>>, Error>(Some(BodySource::Nothing)) ==> (before == PayloadState::<I, S, F, U, T, B>::Empty
            || before == PayloadState::<I, S, F, U, T, B>::Http(VaneBody::Empty)),
{
}

/// The first buffering step leaves alone a slot that it does not read: a
/// buffered slot answers that there is nothing to read, and an upgrade or a
/// generic L7 stream is refused as not implemented, its payload kept.
pub proof fn lemma_buffering_keeps_what_it_does_not_read<I, S, F, U, T, B>(
    before: PayloadState<I, S, F, U, T, B>,
    after: PayloadState<I, S, F, U, T, B>,
    r: Result<Option<BodySource<I, S, F>>, Error>,
)
    requires
        buffering_step(before, after, r),
    ensures
        before is Buffered ==> r == Ok::<Option<BodySource<I, S, F>>, Error>(None) && after == before,
        before matches PayloadState::Http(VaneBody::SwitchingProtocols(_)) ==> after == before
            && r matches Err(Error::NotImplemented(_)),
        before matches PayloadState::Http(VaneBody::UpgradeBridge { .. }) ==> after == before
            && r matches Err(Error::NotImplemented(_)),
        before is Generic ==> after == before && r matches Err(Error::NotImplemented(_)),
        r is Err ==> after == before,
        r matches Ok(Some(_)) ==> after == PayloadState::<I, S, F, U, T, B>::Empty,
{
}

/// The first buffering step on one slot.
fn take_for_buffering<I, S, F, U, T, B>(slot: &mut PayloadState<I, S, F, U, T, B>) -> (r: Result<Option<BodySource<I, S, F>>, Error>)
    ensures
        buffering_step(*old(slot), *final(slot), r),
{
    match slot {
        PayloadState::Buffered(_) => return Ok(None),
        PayloadState::Http(VaneBody::SwitchingProtocols(_)) | PayloadState::Http(VaneBody::UpgradeBridge { .. }) => {
            return Err(Error::NotImplemented(String::from_str("an upgraded connection has no body to buffer")));
        },
        PayloadState::Generic => {
            return Err(Error::NotImplemented(String::from_str("buffering a generic L7 stream")));
        },
        _ => {},
    }
    let mut payload = PayloadState::Empty;
    std::mem::swap(&mut payload, slot);
    match payload {
        PayloadState::Http(VaneBody::Hyper(i)) => Ok(Some(BodySource::Native(i))),
        PayloadState::Http(VaneBody::H3(s)) => Ok(Some(BodySource::Stream(s))),
        PayloadState::Http(VaneBody::Generic(s)) => Ok(Some(BodySource::Stream(s))),
        PayloadState::Http(VaneBody::Buffered(f)) => Ok(Some(BodySource::Full(f))),
        _ => Ok(Some(BodySource::Nothing)),
    }
}


impl<I, S, F, U, T, B> Container<I, S, F, U, T, B> {
    /// A new envelope holding the two payloads, with no upgrade handle yet.
    pub fn new(
        request_body: PayloadState<I, S, F, U, T, B>,
        response_body: PayloadState<I, S, F, U, T, B>,
    ) -> (c: Self)
        ensures
            c.request_body == request_body,
            c.response_body == response_body,
            c.client_upgrade is None,
    {
        Container { request_body, response_body, client_upgrade: None }
    }

    /// The response bytes, if the response has already been buffered.
    pub fn buffered_response(&self) -> (b: Option<&B>)
        ensures
            match self.response_body {
                PayloadState::Buffered(x) => b == Some(&x),
                _ => b is None,
            },
    {
        match &self.response_body {
            PayloadState::Buffered(x) => Some(x),
            _ => None,
        }
    }

    /// The request bytes, if the request has already been buffered.
    pub fn buffered_request(&self) -> (b: Option<&B>)
        ensures
            match self.request_body {
                PayloadState::Buffered(x) => b == Some(&x),
                _ => b is None,
            },
    {
        match &self.request_body {
            PayloadState::Buffered(x) => Some(x),
            _ => None,
        }
    }

    /// The first step of lazily buffering the response: nothing to read if
    /// it is buffered already, `NotImplemented` if it cannot be buffered,
    /// otherwise the body to read, taken out of the slot. The request slot
    /// and the client's upgrade handle are left alone.
    pub fn take_response_for_buffering(&mut self) -> (r: Result<Option<BodySource<I, S, F>>, Error>)
        ensures
            buffering_step(old(self).response_body, final(self).response_body, r),
            old(self).response_body matches PayloadState::Http(VaneBody::Hyper(i))
                ==> r == Ok::<Option<BodySource<I, S, F>>, Error>(Some(BodySource::Native(i))),
            old(self).response_body matches PayloadState::Http(VaneBody::H3(s))
                ==> r == Ok::<Option<BodySource<I, S, F>>, Error>(Some(BodySource::Stream(s))),
            old(self).response_body matches PayloadState::Http(VaneBody::Generic(s))
                ==> r == Ok::<Option<BodySource<I, S, F>>, Error>(Some(BodySource::Stream(s))),
            old(self).response_body matches PayloadState::Http(VaneBody::Buffered(f))
                ==> r == Ok::<Option<BodySource<I, S, F>>, Error>(Some(BodySource::Full(f))),
            r == Ok::<Option<BodySource<I, S, F>>, Error>(Some(BodySource::Nothing)) ==> (
                old(self).response_body == PayloadState::<I, S, F, U, T, B>::Empty
                || old(self).response_body == PayloadState::<I, S, F, U, T, B>::Http(VaneBody::Empty)),
            final(self).request_body == old(self).request_body,
            final(self).client_upgrade == old(self).client_upgrade,
    {
        take_for_buffering(&mut self.response_body)
    }

    /// The first step of lazily buffering the request, as for the response.
    /// The response slot and the client's upgrade handle are left alone.
    pub fn take_request_for_buffering(&mut self) -> (r: Result<Option<BodySource<I, S, F>>, Error>)
        ensures
            buffering_step(old(self).request_body, final(self).request_body, r),
            old(self).request_body matches PayloadState::Http(VaneBody::Hyper(i))
                ==> r == Ok::<Option<BodySource<I, S, F>>, Error>(Some(BodySource::Native(i))),
            old(self).request_body matches PayloadState::Http(VaneBody::H3(s))
                ==> r == Ok::<Option<BodySource<I, S, F>>, Error>(Some(BodySource::Stream(s))),
            old(self).request_body matches PayloadState::Http(VaneBody::Generic(s))
                ==> r == Ok::<Option<BodySource<I, S, F>>, Error>(Some(BodySource::Stream(s))),
            old(self).request_body matches PayloadState::Http(VaneBody::Buffered(f))
                ==> r == Ok::<Option<BodySource<I, S, F>>, Error>(Some(BodySource::Full(f))),
            r == Ok::<Option<BodySource<I, S, F>>, Error>(Some(BodySource::Nothing)) ==> (
                old(self).request_body == PayloadState::<I, S, F, U, T, B>::Empty
                || old(self).request_body == PayloadState::<I, S, F, U, T, B>::Http(VaneBody::Empty)),
            final(self).response_body == old(self).response_body,
            final(self).client_upgrade == old(self).client_upgrade,
    {
        take_for_buffering(&mut self.request_body)
    }

    /// Stores the bytes read from the response body; the request slot and
    /// the client's upgrade handle are left alone.
    pub fn store_buffered_response(&mut self, bytes: B)
        ensures
            final(self).response_body == PayloadState::<I, S, F, U, T, B>::Buffered(bytes),
            final(self).request_body == old(self).request_body,
            final(self).client_upgrade == old(self).client_upgrade,
    {
        self.response_body = PayloadState::Buffered(bytes);
    }

    /// Stores the bytes read from the request body; the response slot and
    /// the client's upgrade handle are left alone.
    pub fn store_buffered_request(&mut self, bytes: B)
        ensures
            final(self).request_body == PayloadState::<I, S, F, U, T, B>::Buffered(bytes),
            final(self).response_body == old(self).response_body,
            final(self).client_upgrade == old(self).client_upgrade,
    {
        self.request_body = PayloadState::Buffered(bytes);
    }
}

/// The response payload that carries a tunnel task: an HTTP body that
/// starts the tunnel when it is polled.
pub fn upgrade_bridge<I, S, F, U, T, B>(tunnel_task: T) -> (payload: PayloadState<I, S, F, U, T, B>)
    ensures
        payload == PayloadState::<I, S, F, U, T, B>::Http(
            VaneBody::UpgradeBridge { tunnel_task: Some(tunnel_task) },
        ),
{
    PayloadState::Http(VaneBody::UpgradeBridge { tunnel_task: Some(tunnel_task) })
}

} // verus!
