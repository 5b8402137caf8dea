use vstd::prelude::*;
use crate::device::{DeviceOpener, PortConfig, ReadOutcome, SerialDevice};
use crate::listener::{after_event, classify_read, is_current, reports, ListenerView, LoopAction, PollEvent};

verus! {

/// The device could not be opened; holds the operating system's error text.
pub struct OpenError {
    pub detail: String,
}

/// Closing was asked for while no device is open.
#[derive(Debug, PartialEq, Eq, Structural)]
pub enum CloseError {
    NotOpen,
}

/// Why a write did not go through.
pub enum WriteError {
    /// No device is open.
    NotOpen,
    /// The device reported a failure; no guarantee is made about how many
    /// bytes went out.
    Io(String),
}

/// What an operating-system call reported: success, or its error text.
pub open spec fn outcome<T>(r: Result<T, String>) -> Result<(), Seq<char>> {
    match r {
        Ok(_) => Ok(()),
        Err(e) => Err(e@),
    }
}

/// How an open reports what the opener said: success exactly when the
/// device was opened, otherwise the operating system's text unchanged.
pub open spec fn open_reported(o: Result<(), Seq<char>>, r: Result<(), OpenError>) -> bool {
    &&& (o is Ok <==> r is Ok)
    &&& o is Err ==> r is Err && r->Err_0.detail@ == o->Err_0
}

/// How a write reports what the device said: success exactly when every
/// byte was accepted, otherwise an I/O error with the device's text.
pub open spec fn write_reported(o: Result<(), Seq<char>>, r: Result<(), WriteError>) -> bool {
    &&& (o is Ok <==> r is Ok)
    &&& o is Err ==> r is Err && r->Err_0 is Io && r->Err_0->Io_0@ == o->Err_0
}

/// The error that a write reports for what the device said.
pub fn write_result(dev: Result<(), String>) -> (r: Result<(), WriteError>)
    ensures
        write_reported(outcome(dev), r),
{
    match dev {
        Ok(()) => Ok(()),
        Err(detail) => Err(WriteError::Io(detail)),
    }
}

/// Exclusive owner of the one open device handle, if any.
///
/// Two ghost counters record how many handles this session has obtained
/// from the operating system and how many it has released (dropped).
/// Their difference is the number of handles alive at once.
///
/// Two more ghost records keep the last request handed to the opener
/// (device, baud rate, read timeout, and what it reported) and the last
/// bytes handed to the device for writing (with what it reported).
pub struct PortSession<D> {
    port: Option<D>,
    opened: Ghost<nat>,
    released: Ghost<nat>,
    last_open: Ghost<Option<(Seq<char>, u32, u64, Result<(), Seq<char>>)>>,
    last_write: Ghost<Option<(Seq<u8>, Result<(), Seq<char>>)>>,
}

impl<D> PortSession<D> {
    /// A handle is held.
    pub closed spec fn is_open(&self) -> bool {
        self.port is Some
    }

    /// Handles obtained from the operating system so far.
    pub closed spec fn opened(&self) -> nat {
        self.opened@
    }

    /// Handles released so far.
    pub closed spec fn released(&self) -> nat {
        self.released@
    }

    /// The last open request handed to the opener, and what it reported.
    pub closed spec fn last_open(&self) -> Option<(Seq<char>, u32, u64, Result<(), Seq<char>>)> {
        self.last_open@
    }

    /// The last bytes handed to the device for writing, and what it reported.
    pub closed spec fn last_write(&self) -> Option<(Seq<u8>, Result<(), Seq<char>>)> {
        self.last_write@
    }

    /// Handles currently alive.
    pub open spec fn live_handles(&self) -> int {
        self.opened() - self.released()
    }

    /// Every handle obtained and not yet released is the one held.
    pub closed spec fn wf(&self) -> bool {
        self.opened@ == self.released@ + if self.port is Some { 1nat } else { 0nat }
    }

    /// Whatever sequence of operations led here (each one keeps `wf`), at
    /// most one handle is alive, and one is alive exactly when the session
    /// is open.
    pub proof fn lemma_at_most_one_handle_live(&self)
        requires
            self.wf(),
        ensures
            self.live_handles() == if self.is_open() { 1int } else { 0int },
            0 <= self.live_handles() <= 1,
    {
    }

    /// A session with no device open.
    pub fn new() -> (r: Self)
        ensures
            r.wf(),
            !r.is_open(),
            r.opened() == 0,
            r.released() == 0,
            r.last_open() is None,
            r.last_write() is None,
    {
        PortSession {
            port: None,
            opened: Ghost(0),
            released: Ghost(0),
            last_open: Ghost(None),
            last_write: Ghost(None),
        }
    }

    /// Whether a device is open.
    pub fn is_port_open(&self) -> (r: bool)
        ensures
            r == self.is_open(),
    {
        self.port.is_some()
    }

    /// Drops the held handle, if any.
    fn release(&mut self)
        requires
            old(self).wf(),
        ensures
            final(self).wf(),
            !final(self).is_open(),
            final(self).opened() == old(self).opened(),
            final(self).released() == old(self).released() + if old(self).is_open() { 1nat } else { 0nat },
            final(self).last_open() == old(self).last_open(),
            final(self).last_write() == old(self).last_write(),
    {
        if self.port.is_some() {
            self.port = None;
            self.released = Ghost(self.released@ + 1);
        }
    }

    /// What closing this session returns.
    pub open spec fn close_result(&self) -> Result<(), CloseError> {
        if self.is_open() {
            Ok(())
        } else {
            Err(CloseError::NotOpen)
        }
    }

    /// How one poll relates the session before (`pre`) and after (`post`)
    /// to the event it reports: a closed session stays as it is and reports
    /// nothing; a port error releases the handle; anything else keeps it.
    pub open spec fn polled(pre: Self, post: Self, e: PollEvent) -> bool {
        &&& post.wf()
        &&& !pre.is_open() ==> e is Quiet && post == pre
        &&& e is PortError ==> !post.is_open() && post.opened() == pre.opened()
            && post.released() == pre.released() + 1
        &&& !(e is PortError) ==> post.is_open() == pre.is_open() && post.opened() == pre.opened()
            && post.released() == pre.released()
        &&& post.last_open() == pre.last_open()
        &&& post.last_write() == pre.last_write()
    }

    /// After a poll that reports a port error, the loop that made it while
    /// current stops, the listener is no longer running, the session is
    /// closed, and closing it again reports that it is not open.
    pub proof fn lemma_read_error_ends_session(
        pre: Self,
        post: Self,
        e: PollEvent,
        v: ListenerView,
        token: u64,
    )
        requires
            pre.wf(),
            Self::polled(pre, post, e),
            e is PortError,
            is_current(v, token),
        ensures
            post.wf(),
            !post.is_open(),
            post.close_result() == Err::<(), CloseError>(CloseError::NotOpen),
            !after_event(v, token, e).0.running,
            after_event(v, token, e).1 == LoopAction::Exit,
    {
    }

    /// Closes the open device.
    pub fn close(&mut self) -> (r: Result<(), CloseError>)
        requires
            old(self).wf(),
        ensures
            final(self).wf(),
            r == old(self).close_result(),
            !old(self).is_open() ==> r == Err::<(), CloseError>(CloseError::NotOpen) && *final(self) == *old(self),
            old(self).is_open() ==> r is Ok && !final(self).is_open()
                && final(self).opened() == old(self).opened()
                && final(self).released() == old(self).released() + 1,
    {
        if self.port.is_some() {
            self.release();
            Ok(())
        } else {
            Err(CloseError::NotOpen)
        }
    }
}

impl<D: SerialDevice> PortSession<D> {
    /// Takes what the opener returned into a closed session. A device
    /// becomes the held handle (flushing it is best effort: its result does
    /// not matter); an error is reported with its text and changes nothing.
    pub fn install(&mut self, opened: Result<D, String>) -> (r: Result<(), OpenError>)
        requires
            old(self).wf(),
            !old(self).is_open(),
        ensures
            final(self).wf(),
            open_reported(outcome(opened), r),
            opened is Err ==> *final(self) == *old(self),
            opened is Ok ==> final(self).is_open()
                && final(self).opened() == old(self).opened() + 1
                && final(self).released() == old(self).released()
                && final(self).last_open() == old(self).last_open()
                && final(self).last_write() == old(self).last_write(),
    {
        match opened {
            Ok(mut dev) => {
                let _flushed = dev.flush_buffers();
                self.port = Some(dev);
                self.opened = Ghost(self.opened@ + 1);
                Ok(())
            },
            Err(detail) => Err(OpenError { detail }),
        }
    }

    /// Opens, through `opener`, the device that `config` names, at its baud
    /// rate, with the requested read timeout or the default one. Any device
    /// already open is closed first, so the old and the new handle are never
    /// alive together. The result is what the opener reported: success
    /// exactly when it opened the device, otherwise its error text; after a
    /// failure the session is closed.
    pub fn open<O: DeviceOpener<D>>(&mut self, opener: &mut O, config: &PortConfig) -> (r: Result<(), OpenError>)
        requires
            old(self).wf(),
        ensures
            final(self).wf(),
            final(self).last_open() is Some,
            final(self).last_open()->Some_0.0 == config.port@,
            final(self).last_open()->Some_0.1 == config.baud_rate,
            final(self).last_open()->Some_0.2 == config.timeout_spec(),
            open_reported(final(self).last_open()->Some_0.3, r),
            final(self).is_open() <==> r is Ok,
            final(self).opened() == old(self).opened() + if r is Ok { 1nat } else { 0nat },
            final(self).released() == old(self).released() + if old(self).is_open() { 1nat } else { 0nat },
            final(self).last_write() == old(self).last_write(),
    {
        self.release();
        let timeout_ms = config.read_timeout_ms();
        let opened = opener.open_device(config, timeout_ms);
        self.last_open = Ghost(Some((config.port@, config.baud_rate, timeout_ms, outcome(opened))));
        self.install(opened)
    }

    /// Writes all of `data` to the open device. The result is what the
    /// device reported: success exactly when it accepted every byte,
    /// otherwise an I/O error with its text (a partial write is an error).
    pub fn write(&mut self, data: &[u8]) -> (r: Result<(), WriteError>)
        requires
            old(self).wf(),
        ensures
            final(self).wf(),
            !old(self).is_open() ==> r is Err && r->Err_0 is NotOpen && *final(self) == *old(self),
            old(self).is_open() ==> final(self).is_open()
                && final(self).opened() == old(self).opened()
                && final(self).released() == old(self).released()
                && final(self).last_open() == old(self).last_open()
                && final(self).last_write() is Some
                && final(self).last_write()->Some_0.0 == data@
                && write_reported(final(self).last_write()->Some_0.1, r),
    {
        let res = match self.port.as_mut() {
            Some(dev) => dev.write_all_bytes(data),
            None => {
                return Err(WriteError::NotOpen);
            },
        };
        self.last_write = Ghost(Some((data@, outcome(res))));
        write_result(res)
    }

    /// Reports what one read of the open device gave, as `classify_read`
    /// does. On a port error the handle is released, since a broken device
    /// cannot be trusted further.
    pub fn after_read(&mut self, o: ReadOutcome) -> (r: PollEvent)
        requires
            old(self).wf(),
            old(self).is_open(),
        ensures
            reports(o, r),
            Self::polled(*old(self), *final(self), r),
    {
        let e = classify_read(o);
        if let PollEvent::PortError(_) = &e {
            self.release();
        }
        e
    }

    /// One poll: reads the open device once and reports it as `after_read`
    /// does. With no device open there is nothing to do.
    pub fn poll(&mut self) -> (r: PollEvent)
        requires
            old(self).wf(),
        ensures
            Self::polled(*old(self), *final(self), r),
    {
        let o = match self.port.as_mut() {
            Some(dev) => dev.read_chunk(),
            None => {
                return PollEvent::Quiet;
            },
        };
        self.after_read(o)
    }
}

} // verus!
