//! Values across the boundary.
//!
//! A value crosses to the host encoded, in a block of its own; a value from the
//! host is captured from the block that the host filled, and decoded. On top of
//! these two moves stand the calls that the generated entry points and the host
//! call surface make.
use crate::codec::{
    decode_value, encode_value, json_string, string_value, wire_form, wire_value, DecodeError,
    EncodeError,
};
use crate::memory::{record_to_host, GuestMemory, MemoryError};
use crate::protocol::{address_limit, span};
use crate::record::{packed, RECORD_LEN};
use crate::text::{decimal, to_decimal};
use vstd::prelude::*;

verus! {

/// Why a value did not cross the boundary.
#[derive(Debug, Clone, PartialEq, Eq)]
pub enum BoundaryError {
    /// The memory manager refused the block.
    Memory(MemoryError),
    /// The value has no binary form.
    Encode(EncodeError),
    /// The block does not hold a well-formed value.
    Decode(DecodeError),
}

/// What handing `obj` to the host does to the memory, for each way it can
/// end: on success the encoded bytes stand in a new block at the frontier; on a
/// failure the memory is as it was.
pub open spec fn sent(
    before: GuestMemory,
    after: GuestMemory,
    obj: serde_json::Value,
    r: Result<(u32, u32), BoundaryError>,
) -> bool {
    match r {
        Ok((offset, size)) => {
            &&& wire_form(obj) matches Ok(bytes)
            &&& before.has_room(bytes.len() as int)
            &&& offset == before.frontier()
            &&& size == bytes.len()
            &&& !before@.contains_key(offset)
            &&& after@ == before@.insert(offset, bytes)
            &&& after.frontier() == before.frontier() + span(bytes.len() as int)
        },
        Err(BoundaryError::Encode(error)) => {
            &&& wire_form(obj) matches Err(message)
            &&& error.message@ == message
            &&& after == before
        },
        Err(BoundaryError::Memory(error)) => {
            &&& wire_form(obj) matches Ok(bytes)
            &&& !before.has_room(bytes.len() as int)
            &&& error == MemoryError::OutOfMemory
            &&& after == before
        },
        Err(BoundaryError::Decode(_)) => false,
    }
}

/// What taking a value back from the block at `offset` does to the memory, for
/// each way it can end: the block is consumed whenever it is outstanding and
/// `size` bytes long, whether or not its bytes decode.
pub open spec fn received(
    before: GuestMemory,
    after: GuestMemory,
    offset: u32,
    size: u32,
    r: Result<serde_json::Value, BoundaryError>,
) -> bool {
    &&& after.frontier() == before.frontier()
    &&& match r {
        Ok(value) => {
            &&& before@.contains_key(offset)
            &&& before@[offset].len() == size
            &&& wire_value(before@[offset]) == Ok::<serde_json::Value, Seq<char>>(value)
            &&& after@ == before@.remove(offset)
        },
        Err(BoundaryError::Decode(error)) => {
            &&& before@.contains_key(offset)
            &&& before@[offset].len() == size
            &&& wire_value(before@[offset]) matches Err(message)
            &&& error.message@ == message
            &&& after@ == before@.remove(offset)
        },
        Err(BoundaryError::Memory(MemoryError::UnknownBlock)) => {
            &&& !before@.contains_key(offset)
            &&& after == before
        },
        Err(BoundaryError::Memory(MemoryError::SizeMismatch)) => {
            &&& before@.contains_key(offset)
            &&& before@[offset].len() != size
            &&& after == before
        },
        Err(BoundaryError::Memory(MemoryError::OutOfMemory)) => false,
        Err(BoundaryError::Encode(_)) => false,
    }
}

/// Encodes a value and hands the bytes over to the host. Returns the address
/// and the length of the block that holds them.
///
/// Fails, changing nothing, when the value has no binary form (`Encode`) and
/// when the address space has no room for the bytes (`Memory(OutOfMemory)`).
pub fn value_to_host(mem: &mut GuestMemory, obj: &serde_json::Value) -> (r: Result<
    (u32, u32),
    BoundaryError,
>)
    requires
        old(mem).wf(),
    ensures
        final(mem).wf(),
        sent(*old(mem), *final(mem), *obj, r),
{
    match encode_value(obj) {
        Err(error) => Err(BoundaryError::Encode(error)),
        Ok(bytes) => match mem.transfer_out(bytes) {
            Ok(parts) => Ok(parts),
            Err(error) => Err(BoundaryError::Memory(error)),
        },
    }
}

/// Captures the block that the host left at `offset` and decodes the value in
/// it. The block is consumed, whether or not its bytes decode.
///
/// Fails, changing nothing, when no outstanding block starts at `offset`
/// (`Memory(UnknownBlock)`) or when that block is not `size` bytes long
/// (`Memory(SizeMismatch)`); fails with `Decode`, the block consumed, when its
/// bytes hold no well-formed value.
pub fn value_from_host(mem: &mut GuestMemory, offset: u32, size: u32) -> (r: Result<
    serde_json::Value,
    BoundaryError,
>)
    requires
        old(mem).wf(),
    ensures
        final(mem).wf(),
        received(*old(mem), *final(mem), offset, size, r),
{
    match mem.capture_in(offset, size) {
        Err(error) => Err(BoundaryError::Memory(error)),
        Ok(bytes) => match decode_value(bytes.as_slice()) {
            Ok(value) => Ok(value),
            Err(error) => Err(BoundaryError::Decode(error)),
        },
    }
}

/// Hands a text to the host for its console: the text crosses as a string
/// value. Returns the block to pass to the host's print call.
///
/// Fails as [`value_to_host`] does.
pub fn mprint(mem: &mut GuestMemory, input: &str) -> (r: Result<(u32, u32), BoundaryError>)
    requires
        old(mem).wf(),
    ensures
        final(mem).wf(),
        sent(*old(mem), *final(mem), string_value(input@), r),
{
    let value = json_string(input);
    value_to_host(mem, &value)
}

/// A value that was handed to the host, and is taken back from the block that
/// it was put in, leaves the outstanding blocks as they were and comes back as
/// what its encoded bytes decode to: as the value itself, wherever the binary
/// form of that value decodes to it.
pub proof fn lemma_value_comes_back(
    start: GuestMemory,
    held: GuestMemory,
    end: GuestMemory,
    obj: serde_json::Value,
    offset: u32,
    size: u32,
    back: Result<serde_json::Value, BoundaryError>,
)
    requires
        sent(start, held, obj, Ok((offset, size))),
        received(held, end, offset, size, back),
    ensures
        end@ == start@,
        wire_form(obj) matches Ok(bytes) && ({
            &&& match back {
                Ok(value) => wire_value(bytes) == Ok::<serde_json::Value, Seq<char>>(value),
                Err(BoundaryError::Decode(error)) => wire_value(bytes) == Err::<
                    serde_json::Value,
                    Seq<char>,
                >(error.message@),
                _ => false,
            }
            &&& wire_value(bytes) == Ok::<serde_json::Value, Seq<char>>(obj) ==> back == Ok::<
                serde_json::Value,
                BoundaryError,
            >(obj)
        }),
{
    assert(end@ =~= start@);
}

/// What is reported of a failure that carries no message.
pub open spec fn unknown_failure() -> Seq<char> {
    "Box<Any>"@
}

/// The report of a failure: its message and where it came from.
pub open spec fn panic_text(message: Option<Seq<char>>, file: Seq<char>, line: u32, column: u32) -> Seq<
    char,
> {
    "Panicked at '"@ + (match message {
        Some(text) => text,
        None => unknown_failure(),
    }) + "', "@ + file + ":"@ + decimal(line as nat) + ":"@ + decimal(column as nat)
}

/// Writes the report of a failure: `Panicked at 'message', file:line:column`.
/// A failure without a message is reported as `Box<Any>`.
pub fn panic_message(message: Option<&str>, file: &str, line: u32, column: u32) -> (out: String)
    ensures
        out@ == panic_text(
            match message {
                Some(text) => Some(text@),
                None => None,
            },
            file@,
            line,
            column,
        ),
{
    let line_text = to_decimal(line);
    let column_text = to_decimal(column);
    let mut out = String::from_str("Panicked at '");
    match message {
        Some(text) => out.append(text),
        None => out.append("Box<Any>"),
    }
    out.append("', ");
    out.append(file);
    out.append(":");
    out.append(line_text.as_str());
    out.append(":");
    out.append(column_text.as_str());
    out
}

/// What one invocation does, for each way it can end. `before` and `after`
/// are the outstanding blocks before and after it, `frontier` is the first
/// free address before it, and `unchanged` says that the memory is as it was.
pub open spec fn invoked<F: FnOnce(serde_json::Value) -> serde_json::Value>(
    before: Map<u32, Seq<u8>>,
    frontier: int,
    after: Map<u32, Seq<u8>>,
    unchanged: bool,
    offset: u32,
    size: u32,
    function: F,
    r: Result<u32, BoundaryError>,
) -> bool {
    match r {
        Ok(addr) => {
            &&& before.contains_key(offset)
            &&& before[offset].len() == size
            &&& wire_value(before[offset]) matches Ok(input)
            &&& exists|output: serde_json::Value| #[trigger]
                function.ensures((input,), output) && answered(
                    before.remove(offset),
                    after,
                    frontier,
                    output,
                    addr,
                )
        },
        Err(BoundaryError::Memory(MemoryError::UnknownBlock)) => {
            &&& !before.contains_key(offset)
            &&& unchanged
        },
        Err(BoundaryError::Memory(MemoryError::SizeMismatch)) => {
            &&& before.contains_key(offset)
            &&& before[offset].len() != size
            &&& unchanged
        },
        Err(BoundaryError::Decode(error)) => {
            &&& before.contains_key(offset)
            &&& before[offset].len() == size
            &&& wire_value(before[offset]) matches Err(message)
            &&& error.message@ == message
            &&& after == before.remove(offset)
        },
        Err(BoundaryError::Encode(error)) => {
            &&& before.contains_key(offset)
            &&& wire_value(before[offset]) matches Ok(input)
            &&& exists|output: serde_json::Value| #[trigger]
                function.ensures((input,), output) && wire_form(output) == Err::<
                    Seq<u8>,
                    Seq<char>,
                >(error.message@)
            &&& after == before.remove(offset)
        },
        Err(BoundaryError::Memory(MemoryError::OutOfMemory)) => {
            &&& before.contains_key(offset)
            &&& wire_value(before[offset]) matches Ok(input)
            &&& exists|output: serde_json::Value| #[trigger]
                function.ensures((input,), output) && (wire_form(output) matches Ok(bytes)
                    && frontier + span(bytes.len() as int) + RECORD_LEN
                    > address_limit())
            &&& after == before.remove(offset)
        },
    }
}

/// Runs one invocation: captures and decodes the input that the host left at
/// `offset`, calls `function` on it, encodes the result into a block of its
/// own, and leaves that block's record in a second block, whose address is
/// returned.
///
/// A failure leaves no trace but the consumed input: nothing new is
/// outstanding. The call fails, changing nothing, when no outstanding block of
/// `size` bytes starts at `offset` (`Memory(UnknownBlock)`,
/// `Memory(SizeMismatch)`); with the input consumed, when its bytes hold no
/// value (`Decode`), when the result has no binary form (`Encode`), and when
/// the address space has no room for the result and its record
/// (`Memory(OutOfMemory)`). `function` has to accept every value; it is not
/// called unless the input decodes.
pub fn invoke<F: FnOnce(serde_json::Value) -> serde_json::Value>(
    mem: &mut GuestMemory,
    offset: u32,
    size: u32,
    function: F,
) -> (r: Result<u32, BoundaryError>)
    requires
        old(mem).wf(),
        forall|input: serde_json::Value| function.requires((input,)),
    ensures
        final(mem).wf(),
        old(mem).frontier() <= final(mem).frontier(),
        r matches Ok(addr) ==> final(mem).frontier() == addr + RECORD_LEN,
        invoked(
            old(mem)@,
            old(mem).frontier(),
            final(mem)@,
            *final(mem) == *old(mem),
            offset,
            size,
            function,
            r,
        ),
{
    let ghost before = old(mem)@;
    let ghost rest = old(mem)@.remove(offset);
    let ghost frontier = old(mem).frontier();
    let input = match value_from_host(mem, offset, size) {
        Ok(input) => input,
        Err(error) => {
            return Err(error);
        },
    };
    let output = function(input);
    let (block, len) = match value_to_host(mem, &output) {
        Ok(parts) => parts,
        Err(error) => {
            proof {
                let r = Err::<u32, BoundaryError>(error);
                assert(wire_value(before[offset]) matches Ok(i) && i == input);
                if error is Encode {
                    let failure = error->Encode_0;
                    assert(function.ensures((input,), output) && wire_form(output) == Err::<
                        Seq<u8>,
                        Seq<char>,
                    >(failure.message@));
                    assert(invoked(before, frontier, mem@, false, offset, size, function, r));
                } else {
                    assert(function.ensures((input,), output) && (wire_form(output) matches Ok(
                        bytes,
                    ) && frontier + span(bytes.len() as int) + RECORD_LEN
                        > address_limit()));
                    assert(invoked(before, frontier, mem@, false, offset, size, function, r));
                }
            }
            return Err(error);
        },
    };
    match record_to_host(mem, block, len) {
        Ok(addr) => {
            proof {
                assert(wire_value(before[offset]) matches Ok(i) && i == input);
                assert(function.ensures((input,), output) && answered(
                    rest,
                    mem@,
                    frontier,
                    output,
                    addr,
                ));
                assert(invoked(
                    before,
                    frontier,
                    mem@,
                    false,
                    offset,
                    size,
                    function,
                    Ok::<u32, BoundaryError>(addr),
                ));
            }
            Ok(addr)
        },
        Err(error) => {
            proof {
                assert(mem@ =~= rest);
                assert(wire_value(before[offset]) matches Ok(i) && i == input);
                assert(function.ensures((input,), output) && (wire_form(output) matches Ok(
                    bytes,
                ) && frontier + span(bytes.len() as int) + RECORD_LEN
                    > address_limit()));
                assert(invoked(
                    before,
                    frontier,
                    mem@,
                    false,
                    offset,
                    size,
                    function,
                    Err::<u32, BoundaryError>(BoundaryError::Memory(error)),
                ));
            }
            Err(BoundaryError::Memory(error))
        },
    }
}

/// What a successful invocation leaves behind, on top of the blocks in `rest`:
/// the encoded `output` in a block at `frontier`, and directly after it, at
/// `addr`, the record of that block.
pub open spec fn answered(
    rest: Map<u32, Seq<u8>>,
    after: Map<u32, Seq<u8>>,
    frontier: int,
    output: serde_json::Value,
    addr: u32,
) -> bool {
    &&& wire_form(output) matches Ok(bytes)
    &&& addr == frontier + span(bytes.len() as int)
    &&& addr + RECORD_LEN <= address_limit()
    &&& after == rest.insert(frontier as u32, bytes).insert(
        addr,
        packed(frontier as u32, bytes.len() as u32),
    )
}

} // verus!
