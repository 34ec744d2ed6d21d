//! The terminal manager: the table of live sessions, and the routing of
//! writes and teardown to the session they name.
//!
//! The manager opens no pseudo-terminal and writes no byte itself. Its
//! caller does both, and holds the manager behind whatever lock it shares
//! it through: every operation that changes the table takes it by `&mut`.

use vstd::prelude::*;
use vstd::utf8::*;

use crate::error::TerminalError;
use crate::table::SessionTable;

verus! {

/// What the manager keeps of a live session.
pub struct TerminalSession<W, R> {
    /// The write handle of the pseudo-terminal's master side, through which
    /// the shell is typed to. The session owns it alone.
    pub writer: W,
    /// The handle of the task that relays the shell's output. It is kept so
    /// that it lives as long as the record; nothing waits for it.
    pub reader_handle: R,
}

/// The sessions that are live, by identifier.
///
/// The view of a manager is the `Map` from each registered identifier's
/// characters to the record of its session.
pub struct TerminalManager<W, R> {
    sessions: SessionTable<TerminalSession<W, R>>,
}

/// The table after the outcome of spawning a shell for `session_id` is
/// taken in: a spawned session is registered under the identifier, in place
/// of any that was there; a failure changes nothing.
pub open spec fn spec_spawn_shell<W, R>(
    sessions: Map<Seq<char>, TerminalSession<W, R>>,
    session_id: Seq<char>,
    spawned: Result<TerminalSession<W, R>, TerminalError>,
) -> Map<Seq<char>, TerminalSession<W, R>> {
    match spawned {
        Ok(session) => sessions.insert(session_id, session),
        Err(_) => sessions,
    }
}

/// The input that a write to `session_id` goes to: the write handle of the
/// session registered under it, or `SessionNotFound` where none is.
pub open spec fn spec_input<W, R>(
    sessions: Map<Seq<char>, TerminalSession<W, R>>,
    session_id: Seq<char>,
) -> Result<W, TerminalError> {
    if sessions.contains_key(session_id) {
        Ok(sessions[session_id].writer)
    } else {
        Err(TerminalError::SessionNotFound)
    }
}

/// The table after `session_id` is closed.
pub open spec fn spec_close_session<W, R>(
    sessions: Map<Seq<char>, TerminalSession<W, R>>,
    session_id: Seq<char>,
) -> Map<Seq<char>, TerminalSession<W, R>> {
    sessions.remove(session_id)
}

impl<W, R> View for TerminalManager<W, R> {
    type V = Map<Seq<char>, TerminalSession<W, R>>;

    closed spec fn view(&self) -> Map<Seq<char>, TerminalSession<W, R>> {
        self.sessions@
    }
}

impl<W, R> TerminalManager<W, R> {
    /// A manager with no session.
    pub fn new() -> (manager: Self)
        ensures
            manager@ == Map::<Seq<char>, TerminalSession<W, R>>::empty(),
    {
        TerminalManager { sessions: SessionTable::new() }
    }

    /// Takes in the outcome of spawning a shell for `session_id`.
    ///
    /// A session that was spawned is registered under `session_id`. A
    /// record that was registered there before is dropped, and its write
    /// handle with it; its shell and its relay are not stopped. Where the
    /// spawn failed the table stays as it is and the failure is returned.
    pub fn spawn_shell(
        &mut self,
        session_id: String,
        spawned: Result<TerminalSession<W, R>, TerminalError>,
    ) -> (result: Result<(), TerminalError>)
        ensures
            final(self)@ == spec_spawn_shell(old(self)@, session_id@, spawned),
            result == (match spawned {
                Ok(_) => Ok(()),
                Err(error) => Err(error),
            }),
    {
        match spawned {
            Ok(session) => {
                let _ = self.sessions.insert(session_id, session);
                Ok(())
            },
            Err(error) => Err(error),
        }
    }

    /// Routes a write of `data` to the session `session_id`.
    ///
    /// Returns the session's write handle together with the bytes to write
    /// to it, which are the UTF-8 encoding of `data`; the caller writes
    /// them and flushes. Fails with `SessionNotFound`, and only so, where
    /// no session is registered under `session_id`.
    pub fn write_to_shell<'a>(&'a mut self, session_id: &str, data: &'a str) -> (routed: Result<
        (&'a mut W, &'a [u8]),
        TerminalError,
    >)
        ensures
            match routed {
                Ok((input, bytes)) => {
                    &&& spec_input(old(self)@, session_id@) == Ok::<W, TerminalError>(*input)
                    &&& bytes@ == encode_utf8(data@)
                    &&& final(self)@ == old(self)@.insert(
                        session_id@,
                        TerminalSession {
                            writer: *final(input),
                            reader_handle: old(self)@[session_id@].reader_handle,
                        },
                    )
                },
                Err(error) => {
                    &&& spec_input(old(self)@, session_id@) == Err::<W, TerminalError>(error)
                    &&& final(self)@ == old(self)@
                },
            },
    {
        match self.sessions.get_mut(session_id) {
            Some(session) => Ok((&mut session.writer, data.as_bytes())),
            None => Err(TerminalError::SessionNotFound),
        }
    }

    /// Accepts a request to resize the terminal of `session_id`.
    ///
    /// Resizing is not wired to the pseudo-terminal: nothing is looked up
    /// and nothing is resized, and the request succeeds whether or not a
    /// session is registered under `session_id`.
    pub fn resize(&self, session_id: &str, cols: u16, rows: u16) -> (result: Result<
        (),
        TerminalError,
    >)
        ensures
            result == Ok::<(), TerminalError>(()),
    {
        let _ = (session_id, cols, rows);
        Ok(())
    }

    /// Closes the session `session_id`.
    ///
    /// Its record leaves the table and is dropped, which releases the write
    /// handle; the shell and the relay are not stopped. Closing an
    /// identifier that has no session changes nothing and succeeds too.
    pub fn close_session(&mut self, session_id: &str) -> (result: Result<(), TerminalError>)
        ensures
            final(self)@ == spec_close_session(old(self)@, session_id@),
            result == Ok::<(), TerminalError>(()),
    {
        let _ = self.sessions.remove(session_id);
        Ok(())
    }

    /// Whether a session is registered under `session_id`.
    pub fn has_session(&self, session_id: &str) -> (present: bool)
        ensures
            present == self@.contains_key(session_id@),
    {
        self.sessions.contains_key(session_id)
    }

    /// The number of sessions that are registered.
    pub fn session_count(&self) -> (count: usize)
        ensures
            self@.dom().finite(),
            count == self@.len(),
    {
        self.sessions.len()
    }
}

/// A write that follows the creation of a session goes to the input of the
/// session that was created, whatever was registered before.
pub proof fn lemma_write_after_create_reaches_new_session<W, R>(
    sessions: Map<Seq<char>, TerminalSession<W, R>>,
    session_id: Seq<char>,
    session: TerminalSession<W, R>,
)
    ensures
        spec_input(spec_spawn_shell(sessions, session_id, Ok(session)), session_id) == Ok::<
            W,
            TerminalError,
        >(session.writer),
{
}

/// A write to an identifier under which no session is registered fails with
/// `SessionNotFound`. A spawn that failed leaves the identifier as it was;
/// a session that is closed leaves it without a session.
pub proof fn lemma_write_without_session_is_not_found<W, R>(
    sessions: Map<Seq<char>, TerminalSession<W, R>>,
    session_id: Seq<char>,
    failure: TerminalError,
)
    ensures
        !sessions.contains_key(session_id) ==> spec_input(sessions, session_id) == Err::<
            W,
            TerminalError,
        >(TerminalError::SessionNotFound),
        !sessions.contains_key(session_id) ==> spec_input(
            spec_spawn_shell(sessions, session_id, Err(failure)),
            session_id,
        ) == Err::<W, TerminalError>(TerminalError::SessionNotFound),
        spec_input(spec_close_session(sessions, session_id), session_id) == Err::<
            W,
            TerminalError,
        >(TerminalError::SessionNotFound),
{
}

/// Creating a session twice under one identifier leaves one entry for it,
/// that of the second creation: writes go to the second session's input,
/// one close removes the entry, and the other identifiers are as they were.
pub proof fn lemma_second_create_replaces_first<W, R>(
    sessions: Map<Seq<char>, TerminalSession<W, R>>,
    session_id: Seq<char>,
    first: TerminalSession<W, R>,
    second: TerminalSession<W, R>,
)
    ensures
        ({
            let once = spec_spawn_shell(sessions, session_id, Ok(first));
            let twice = spec_spawn_shell(once, session_id, Ok(second));
            &&& twice == spec_spawn_shell(sessions, session_id, Ok(second))
            &&& twice.dom() == once.dom()
            &&& spec_input(twice, session_id) == Ok::<W, TerminalError>(second.writer)
            &&& spec_close_session(twice, session_id) == sessions.remove(session_id)
            &&& !spec_close_session(twice, session_id).contains_key(session_id)
            &&& sessions.dom().finite() ==> twice.dom().finite() && twice.len()
                == sessions.remove(session_id).len() + 1
        }),
{
    let once = sessions.insert(session_id, first);
    let twice = once.insert(session_id, second);
    assert(twice =~= sessions.insert(session_id, second));
    assert(twice.dom() =~= once.dom());
    assert(twice.remove(session_id) =~= sessions.remove(session_id));
    if sessions.dom().finite() {
        assert(twice.dom() =~= sessions.remove(session_id).dom().insert(session_id));
    }
}

} // verus!
