//! The decision logic of the open glue: given the outcomes of the native
//! open, probe and allocation calls — which only the engine can produce —
//! each function here either wraps the opened context under the teardown
//! tag that matches how it was opened, or surfaces the failing status and
//! orders the correct cleanup.
//!
//! The native calls themselves happen outside this library; the glue that
//! performs them hands their status codes in and executes whatever cleanup
//! the returned log orders. What is verified is the decision: which status
//! wins, which tag a success is wrapped under, and that a bridge handed in
//! is torn down exactly once when the open fails.

use vstd::prelude::*;

use crate::destructor::Destructor;
use crate::destructor::Mode;
use crate::native::NativeCall;
use crate::status::Error;
use crate::stream::MemStream;
use crate::stream_io::StreamIo;
use crate::stream_io::drop_actions;

verus! {

/// Which kind of container format an open call addresses.
#[derive(Clone, Copy, Debug, PartialEq, Eq, Structural)]
pub enum Direction {
    /// A demuxing (input) format.
    Input,
    /// A muxing (output) format.
    Output,
}

/// Opening a named resource under an explicit format. For an input format
/// the two statuses are the open call and the stream probe, and the probe
/// failure is surfaced without further cleanup; for an output format they
/// are the context allocation and the I/O open. A success is wrapped under
/// the matching default teardown tag.
pub fn open(direction: Direction, open_status: i32, finish_status: i32) -> (r: Result<
    Destructor,
    Error,
>)
    ensures
        open_status != 0 ==> r == Err::<Destructor, Error>(Error::Native { code: open_status }),
        direction is Input && open_status == 0 && finish_status < 0 ==> r == Err::<
            Destructor,
            Error,
        >(Error::Native { code: finish_status }),
        direction is Input && open_status == 0 && finish_status >= 0 ==> (r matches Ok(d)
            && d.mode() is Input),
        direction is Output && open_status == 0 && finish_status != 0 ==> r == Err::<
            Destructor,
            Error,
        >(Error::Native { code: finish_status }),
        direction is Output && open_status == 0 && finish_status == 0 ==> (r matches Ok(d)
            && d.mode() is Output),
{
    if open_status != 0 {
        return Err(Error::Native { code: open_status });
    }
    match direction {
        Direction::Input => {
            if finish_status >= 0 {
                Ok(Destructor::new(Mode::Input))
            } else {
                Err(Error::Native { code: finish_status })
            }
        },
        Direction::Output => {
            if finish_status == 0 {
                Ok(Destructor::new(Mode::Output))
            } else {
                Err(Error::Native { code: finish_status })
            }
        },
    }
}

/// Opening a named resource under an explicit format with an options
/// dictionary. The dictionary travels through the native calls untouched
/// by this decision, which is the same as [`open`].
pub fn open_with(direction: Direction, open_status: i32, finish_status: i32) -> (r: Result<
    Destructor,
    Error,
>)
    ensures
        open_status != 0 ==> r == Err::<Destructor, Error>(Error::Native { code: open_status }),
        direction is Input && open_status == 0 && finish_status < 0 ==> r == Err::<
            Destructor,
            Error,
        >(Error::Native { code: finish_status }),
        direction is Input && open_status == 0 && finish_status >= 0 ==> (r matches Ok(d)
            && d.mode() is Input),
        direction is Output && open_status == 0 && finish_status != 0 ==> r == Err::<
            Destructor,
            Error,
        >(Error::Native { code: finish_status }),
        direction is Output && open_status == 0 && finish_status == 0 ==> (r matches Ok(d)
            && d.mode() is Output),
{
    open(direction, open_status, finish_status)
}

/// Opening an input by name alone. A failed stream probe closes the
/// half-opened input before the status surfaces; a success is wrapped
/// under the default input tag.
pub fn input(open_status: i32, find_info_status: i32, log: &mut Vec<NativeCall>) -> (r: Result<
    Destructor,
    Error,
>)
    ensures
        open_status != 0 ==> r == Err::<Destructor, Error>(Error::Native { code: open_status })
            && final(log)@ == old(log)@,
        open_status == 0 && find_info_status < 0 ==> r == Err::<Destructor, Error>(
            Error::Native { code: find_info_status },
        ) && final(log)@ == old(log)@ + seq![NativeCall::CloseInput],
        open_status == 0 && find_info_status >= 0 ==> (r matches Ok(d) && d.mode() is Input)
            && final(log)@ == old(log)@,
{
    if open_status != 0 {
        return Err(Error::Native { code: open_status });
    }
    if find_info_status < 0 {
        log.push(NativeCall::CloseInput);
        proof {
            assert(log@ =~= old(log)@ + seq![NativeCall::CloseInput]);
        }
        return Err(Error::Native { code: find_info_status });
    }
    Ok(Destructor::new(Mode::Input))
}

/// Opening an input by name with an options dictionary. The dictionary
/// travels through the native open untouched by this decision, which is
/// the same as [`input`].
pub fn input_with_dictionary(
    open_status: i32,
    find_info_status: i32,
    log: &mut Vec<NativeCall>,
) -> (r: Result<Destructor, Error>)
    ensures
        open_status != 0 ==> r == Err::<Destructor, Error>(Error::Native { code: open_status })
            && final(log)@ == old(log)@,
        open_status == 0 && find_info_status < 0 ==> r == Err::<Destructor, Error>(
            Error::Native { code: find_info_status },
        ) && final(log)@ == old(log)@ + seq![NativeCall::CloseInput],
        open_status == 0 && find_info_status >= 0 ==> (r matches Ok(d) && d.mode() is Input)
            && final(log)@ == old(log)@,
{
    input(open_status, find_info_status, log)
}

/// Opening an input by name with an interrupt callback installed on the
/// context before the open. Installing the callback is native work that
/// cannot fail; the decision is the same as [`input`].
pub fn input_with_interrupt(
    open_status: i32,
    find_info_status: i32,
    log: &mut Vec<NativeCall>,
) -> (r: Result<Destructor, Error>)
    ensures
        open_status != 0 ==> r == Err::<Destructor, Error>(Error::Native { code: open_status })
            && final(log)@ == old(log)@,
        open_status == 0 && find_info_status < 0 ==> r == Err::<Destructor, Error>(
            Error::Native { code: find_info_status },
        ) && final(log)@ == old(log)@ + seq![NativeCall::CloseInput],
        open_status == 0 && find_info_status >= 0 ==> (r matches Ok(d) && d.mode() is Input)
            && final(log)@ == old(log)@,
{
    input(open_status, find_info_status, log)
}

/// Opening an input over a stream bridge. On success the context and the
/// bridge are co-owned under the bridged input tag; on any failure the
/// bridge is torn down exactly once before the status surfaces, and a
/// failed probe additionally closes the half-opened input.
pub fn input_from_stream(
    custom_io: StreamIo,
    open_status: i32,
    find_info_status: i32,
    log: &mut Vec<NativeCall>,
) -> (r: Result<Destructor, Error>)
    ensures
        open_status != 0 ==> r == Err::<Destructor, Error>(Error::Native { code: open_status })
            && final(log)@ == old(log)@ + drop_actions(custom_io),
        open_status == 0 && find_info_status < 0 ==> r == Err::<Destructor, Error>(
            Error::Native { code: find_info_status },
        ) && final(log)@ == old(log)@ + seq![NativeCall::CloseInput] + drop_actions(custom_io),
        open_status == 0 && find_info_status >= 0 ==> (r matches Ok(d) && d.mode() == (
        Mode::InputCustomIo(custom_io))) && final(log)@ == old(log)@,
{
    if open_status != 0 {
        let mut io = custom_io;
        let _released: Option<MemStream> = io.teardown(log);
        return Err(Error::Native { code: open_status });
    }
    if find_info_status < 0 {
        let ghost entry_log = log@;
        log.push(NativeCall::CloseInput);
        let mut io = custom_io;
        let _released: Option<MemStream> = io.teardown(log);
        proof {
            assert(log@ =~= entry_log + seq![NativeCall::CloseInput] + drop_actions(custom_io));
        }
        return Err(Error::Native { code: find_info_status });
    }
    Ok(Destructor::new(Mode::InputCustomIo(custom_io)))
}

/// Opening an output by name alone: the context allocation, then the I/O
/// open. A success is wrapped under the default output tag; a failure
/// surfaces the failing status.
pub fn output(alloc_status: i32, io_open_status: i32) -> (r: Result<Destructor, Error>)
    ensures
        alloc_status != 0 ==> r == Err::<Destructor, Error>(Error::Native { code: alloc_status }),
        alloc_status == 0 && io_open_status != 0 ==> r == Err::<Destructor, Error>(
            Error::Native { code: io_open_status },
        ),
        alloc_status == 0 && io_open_status == 0 ==> (r matches Ok(d) && d.mode() is Output),
{
    if alloc_status != 0 {
        return Err(Error::Native { code: alloc_status });
    }
    if io_open_status != 0 {
        return Err(Error::Native { code: io_open_status });
    }
    Ok(Destructor::new(Mode::Output))
}

/// Opening an output by name with an options dictionary; the decision is
/// the same as [`output`].
pub fn output_with(alloc_status: i32, io_open_status: i32) -> (r: Result<Destructor, Error>)
    ensures
        alloc_status != 0 ==> r == Err::<Destructor, Error>(Error::Native { code: alloc_status }),
        alloc_status == 0 && io_open_status != 0 ==> r == Err::<Destructor, Error>(
            Error::Native { code: io_open_status },
        ),
        alloc_status == 0 && io_open_status == 0 ==> (r matches Ok(d) && d.mode() is Output),
{
    output(alloc_status, io_open_status)
}

/// Opening an output by name under an explicitly named format; the
/// decision is the same as [`output`].
pub fn output_as(alloc_status: i32, io_open_status: i32) -> (r: Result<Destructor, Error>)
    ensures
        alloc_status != 0 ==> r == Err::<Destructor, Error>(Error::Native { code: alloc_status }),
        alloc_status == 0 && io_open_status != 0 ==> r == Err::<Destructor, Error>(
            Error::Native { code: io_open_status },
        ),
        alloc_status == 0 && io_open_status == 0 ==> (r matches Ok(d) && d.mode() is Output),
{
    output(alloc_status, io_open_status)
}

/// Opening an output by name under an explicitly named format with an
/// options dictionary; the decision is the same as [`output`].
pub fn output_as_with(alloc_status: i32, io_open_status: i32) -> (r: Result<Destructor, Error>)
    ensures
        alloc_status != 0 ==> r == Err::<Destructor, Error>(Error::Native { code: alloc_status }),
        alloc_status == 0 && io_open_status != 0 ==> r == Err::<Destructor, Error>(
            Error::Native { code: io_open_status },
        ),
        alloc_status == 0 && io_open_status == 0 ==> (r matches Ok(d) && d.mode() is Output),
{
    output(alloc_status, io_open_status)
}

/// Opening an output over a stream bridge: only the context allocation
/// can fail, and a failure tears the bridge down exactly once before the
/// status surfaces. On success the context and the bridge are co-owned
/// under the bridged output tag.
pub fn output_to_stream(custom_io: StreamIo, alloc_status: i32, log: &mut Vec<NativeCall>) -> (r:
    Result<Destructor, Error>)
    ensures
        alloc_status != 0 ==> r == Err::<Destructor, Error>(Error::Native { code: alloc_status })
            && final(log)@ == old(log)@ + drop_actions(custom_io),
        alloc_status == 0 ==> (r matches Ok(d) && d.mode() == (Mode::OutputCustomIo(custom_io)))
            && final(log)@ == old(log)@,
{
    if alloc_status != 0 {
        let mut io = custom_io;
        let _released: Option<MemStream> = io.teardown(log);
        return Err(Error::Native { code: alloc_status });
    }
    Ok(Destructor::new(Mode::OutputCustomIo(custom_io)))
}

} // verus!
