//! The handles of a session, and the calls that each of them may issue.
//!
//! A [`Client`] is the undivided handle: it may execute, send and receive.
//! [`Client::split`] turns it into a [`SendClient`], which only sends and can
//! be duplicated, and a [`ReceiveClient`], which only receives and cannot.
//!
//! A handle never calls the engine. It checks what it is given and returns
//! the [`Call`] to be made; the caller makes it and, where the call produces
//! an answer, hands the answer to the handle that issued the call. That
//! handle keeps the answer until it issues the next call that produces one.
//! Issuing such a call takes exclusive access to the handle, so nobody can
//! still be reading the previous answer when the engine overwrites it.

use vstd::prelude::*;
use vstd::string::StringSliceAdditionalSpecFns;
use crate::response::{decoded, raw_view, Buffer, DecodeError};
use crate::session::{step, Action, Event, Holders, Misuse, Session};
use crate::text::{has_no_nul_char, is_first_nul, is_nul_free, CText, NulError};

verus! {

/// A call to be made on the engine's session.
#[derive(Debug, PartialEq, Eq)]
pub enum Call {
    /// Run the request and wait for its answer.
    Execute(CText),
    /// Queue the request; its answer comes by a later receive.
    Send(CText),
    /// Wait up to so many seconds for the next answer.
    Receive(u64),
}

/// The holders of a session right after its split: one sender and the receiver.
pub open spec fn halves() -> Holders {
    Holders { whole: false, senders: 1, receiver: true }
}

/// The undivided handle of a session.
#[derive(Debug)]
pub struct Client {
    buffer: Buffer,
}

/// The sending side of a split session.
#[derive(Debug)]
pub struct SendClient {
    side: (),
}

/// The receiving side of a split session.
#[derive(Debug)]
pub struct ReceiveClient {
    buffer: Buffer,
}

impl Client {
    /// The answer that is still valid, if there is one.
    pub closed spec fn buffer(&self) -> Option<Seq<char>> {
        self.buffer@
    }

    /// The handle of a session that was just created. No answer is valid yet.
    pub fn new() -> (client: Client)
        ensures
            client.buffer() is None,
    {
        Client { buffer: Buffer::new() }
    }

    /// Issues a synchronous request. Text with a zero byte inside is refused
    /// and nothing changes; else the call to make is returned, and the answer
    /// to the previous call is no longer valid.
    pub fn execute(&mut self, request: &str) -> (issued: Result<Call, NulError>)
        ensures
            match issued {
                Ok(call) => {
                    &&& is_nul_free(request.spec_bytes())
                    &&& call matches Call::Execute(text)
                    &&& text@ == request.spec_bytes()
                    &&& final(self).buffer() is None
                },
                Err(error) => {
                    &&& is_first_nul(request.spec_bytes(), error.position() as int)
                    &&& final(self).buffer() == old(self).buffer()
                },
            },
            issued is Ok <==> has_no_nul_char(request@),
    {
        match CText::new(request) {
            Ok(text) => {
                self.buffer.invalidate();
                Ok(Call::Execute(text))
            },
            Err(error) => Err(error),
        }
    }

    /// Issues a request whose answer is not waited for. Text with a zero byte
    /// inside is refused. The valid answer stays valid either way.
    pub fn send(&self, request: &str) -> (issued: Result<Call, NulError>)
        ensures
            match issued {
                Ok(call) => {
                    &&& is_nul_free(request.spec_bytes())
                    &&& call matches Call::Send(text)
                    &&& text@ == request.spec_bytes()
                },
                Err(error) => is_first_nul(request.spec_bytes(), error.position() as int),
            },
            issued is Ok <==> has_no_nul_char(request@),
    {
        match CText::new(request) {
            Ok(text) => Ok(Call::Send(text)),
            Err(error) => Err(error),
        }
    }

    /// Issues a wait of up to `seconds` for the next answer. The answer to
    /// the previous call is no longer valid.
    pub fn receive(&mut self, seconds: u64) -> (call: Call)
        ensures
            call matches Call::Receive(wait) && wait == seconds,
            final(self).buffer() is None,
    {
        self.buffer.invalidate();
        Call::Receive(seconds)
    }

    /// Takes what the engine gave for the call issued last. Where that is
    /// nothing, no answer is valid; where it is UTF-8, its text is the valid
    /// answer; where it is not, it is refused and no answer is valid.
    pub fn accept(&mut self, raw: Option<Vec<u8>>) -> (accepted: Result<(), DecodeError>)
        ensures
            match decoded(raw_view(raw)) {
                Ok(text) => accepted is Ok && final(self).buffer() == text,
                Err(error) => {
                    &&& accepted == Err::<(), DecodeError>(error)
                    &&& final(self).buffer() is None
                },
            },
    {
        self.buffer.store(raw)
    }

    /// The valid answer, on loan until the next call is issued.
    pub fn answer(&self) -> (text: Option<&str>)
        ensures
            match text {
                Some(text) => self.buffer() == Some(text@),
                None => self.buffer() is None,
            },
    {
        self.buffer.text()
    }

    /// Splits the handle into its sending and its receiving side. Until now
    /// the handle was the session's one holder; from now on an account is
    /// kept, which comes with the two sides: it counts one sender and the
    /// receiver, and nothing is to be destroyed. No answer is valid on the
    /// receiving side yet.
    pub fn split(self) -> (parts: (SendClient, ReceiveClient, Session))
        ensures
            parts.1.buffer() is None,
            parts.2@ == halves(),
            step(Holders::initial(), Event::Split) == Ok::<(Holders, Action), Misuse>(
                (parts.2@, Action::Keep),
            ),
    {
        let mut session = Session::new();
        let _ = session.apply(Event::Split);
        (SendClient { side: () }, ReceiveClient { buffer: Buffer::new() }, session)
    }

    /// Gives the undivided handle up. Nobody else holds the session, so it is
    /// to be destroyed.
    pub fn release(self) -> (action: Action)
        ensures
            action == Action::Destroy,
            step(Holders::initial(), Event::DropClient) matches Ok((after, owed)) && owed
                == action && after.is_destroyed(),
    {
        let mut session = Session::new();
        match session.apply(Event::DropClient) {
            Ok(action) => action,
            Err(_) => Action::Destroy,
        }
    }
}

impl SendClient {
    /// Issues a request whose answer is not waited for. Text with a zero byte
    /// inside is refused.
    pub fn send(&self, request: &str) -> (issued: Result<Call, NulError>)
        ensures
            match issued {
                Ok(call) => {
                    &&& is_nul_free(request.spec_bytes())
                    &&& call matches Call::Send(text)
                    &&& text@ == request.spec_bytes()
                },
                Err(error) => is_first_nul(request.spec_bytes(), error.position() as int),
            },
            issued is Ok <==> has_no_nul_char(request@),
    {
        match CText::new(request) {
            Ok(text) => Ok(Call::Send(text)),
            Err(error) => Err(error),
        }
    }

    /// Makes one more sender of the session that `session` accounts for. The
    /// account counts it, or says why there can be none and stays as it was.
    pub fn duplicate(&self, session: &mut Session) -> (made: Result<SendClient, Misuse>)
        ensures
            match step(old(session)@, Event::CloneSender) {
                Ok((after, _)) => made is Ok && final(session)@ == after,
                Err(misuse) => made matches Err(refused) && refused == misuse && final(session)@
                    == old(session)@,
            },
    {
        match session.apply(Event::CloneSender) {
            Ok(_) => Ok(SendClient { side: () }),
            Err(misuse) => Err(misuse),
        }
    }

    /// Gives this sender up. The account no longer counts it, and says
    /// whether the session is to be destroyed now.
    pub fn release(self, session: &mut Session) -> (owed: Result<Action, Misuse>)
        ensures
            match step(old(session)@, Event::DropSender) {
                Ok((after, action)) => final(session)@ == after && owed == Ok::<Action, Misuse>(
                    action,
                ),
                Err(misuse) => final(session)@ == old(session)@ && owed == Err::<Action, Misuse>(
                    misuse,
                ),
            },
    {
        session.apply(Event::DropSender)
    }
}

impl ReceiveClient {
    /// The answer that is still valid, if there is one.
    pub closed spec fn buffer(&self) -> Option<Seq<char>> {
        self.buffer@
    }

    /// Issues a wait of up to `seconds` for the next answer. The answer to
    /// the previous call is no longer valid.
    pub fn receive(&mut self, seconds: u64) -> (call: Call)
        ensures
            call matches Call::Receive(wait) && wait == seconds,
            final(self).buffer() is None,
    {
        self.buffer.invalidate();
        Call::Receive(seconds)
    }

    /// Takes what the engine gave for the wait issued last. Where that is
    /// nothing, no answer is valid; where it is UTF-8, its text is the valid
    /// answer; where it is not, it is refused and no answer is valid.
    pub fn accept(&mut self, raw: Option<Vec<u8>>) -> (accepted: Result<(), DecodeError>)
        ensures
            match decoded(raw_view(raw)) {
                Ok(text) => accepted is Ok && final(self).buffer() == text,
                Err(error) => {
                    &&& accepted == Err::<(), DecodeError>(error)
                    &&& final(self).buffer() is None
                },
            },
    {
        self.buffer.store(raw)
    }

    /// The valid answer, on loan until the next wait is issued.
    pub fn answer(&self) -> (text: Option<&str>)
        ensures
            match text {
                Some(text) => self.buffer() == Some(text@),
                None => self.buffer() is None,
            },
    {
        self.buffer.text()
    }

    /// Gives the receiver up. The account no longer counts it, and says
    /// whether the session is to be destroyed now.
    pub fn release(self, session: &mut Session) -> (owed: Result<Action, Misuse>)
        ensures
            match step(old(session)@, Event::DropReceiver) {
                Ok((after, action)) => final(session)@ == after && owed == Ok::<Action, Misuse>(
                    action,
                ),
                Err(misuse) => final(session)@ == old(session)@ && owed == Err::<Action, Misuse>(
                    misuse,
                ),
            },
    {
        session.apply(Event::DropReceiver)
    }
}

} // verus!
