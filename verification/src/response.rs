use crate::error::ContractError;
use crate::error::ErrorView;
use vstd::prelude::*;
use vstd::slice::slice_subrange;
use vstd::slice::slice_to_vec;
use vstd::utf8::decode_utf8;
use vstd::utf8::valid_utf8;

verus! {

/// The wire type of a field whose value is a varint.
pub const WIRE_VARINT: u8 = 0;

/// The wire type of a field whose value is eight bytes.
pub const WIRE_FIXED64: u8 = 1;

/// The wire type of a field whose value is a length and that many bytes.
pub const WIRE_LENGTH_DELIMITED: u8 = 2;

/// The wire type that opens a group.
pub const WIRE_START_GROUP: u8 = 3;

/// The wire type that closes a group.
pub const WIRE_END_GROUP: u8 = 4;

/// The wire type of a field whose value is four bytes.
pub const WIRE_FIXED32: u8 = 5;

/// The number of bytes that the varint starting at `pos` occupies, counted
/// from its `n`th byte on: bytes with the top bit set continue the varint,
/// the first one without it ends it. `None` where the input ends first or
/// ten bytes do not end it.
pub open spec fn varint_width(bytes: Seq<u8>, pos: int, n: int) -> Option<int>
    decreases 10 - n,
{
    if n < 0 || n >= 10 || pos + n >= bytes.len() {
        None
    } else if bytes[pos + n] < 0x80 {
        Some(n + 1)
    } else {
        varint_width(bytes, pos, n + 1)
    }
}

/// The number that the `n` bytes from `pos` on spell in base 128, lowest
/// digit first, reduced to 64 bits. Each byte gives its low seven bits.
pub open spec fn varint_value(bytes: Seq<u8>, pos: int, n: int) -> u64
    decreases n,
{
    if n <= 0 {
        0
    } else {
        ((bytes[pos] % 0x80 + 0x80 * varint_value(bytes, pos + 1, n - 1))
            % 0x1_0000_0000_0000_0000) as u64
    }
}

/// The varint that starts at `pos`: its value, and the position behind it.
pub open spec fn varint_at(bytes: Seq<u8>, pos: int) -> Option<(u64, int)> {
    match varint_width(bytes, pos, 0) {
        None => None,
        Some(width) => Some((varint_value(bytes, pos, width), pos + width)),
    }
}

/// The tag that starts at `pos`: the field number, the wire type, and the
/// position behind the tag. A tag is a varint cut to 32 bits; its low three
/// bits are the wire type and the rest is the field number, which is never 0.
pub open spec fn tag_at(bytes: Seq<u8>, pos: int) -> Option<(u32, u8, int)> {
    match varint_at(bytes, pos) {
        None => None,
        Some((value, next)) => {
            let tag = value % 0x1_0000_0000;
            if tag % 8 > 5 || tag / 8 == 0 {
                None
            } else {
                Some(((tag / 8) as u32, (tag % 8) as u8, next))
            }
        },
    }
}

/// The length-delimited value that starts at `pos`: where its bytes begin and
/// where they end. The length is a varint cut to 32 bits, and the bytes must
/// all be there.
pub open spec fn delimited_at(bytes: Seq<u8>, pos: int) -> Option<(int, int)> {
    match varint_at(bytes, pos) {
        None => None,
        Some((value, start)) => {
            let end = start + value % 0x1_0000_0000;
            if end > bytes.len() {
                None
            } else {
                Some((start, end))
            }
        },
    }
}

/// The position behind the value of wire type `wire` that starts at `pos`.
/// Group markers have no value of their own.
pub open spec fn value_end(bytes: Seq<u8>, pos: int, wire: u8) -> Option<int> {
    if wire == WIRE_VARINT {
        match varint_at(bytes, pos) {
            None => None,
            Some((_, next)) => Some(next),
        }
    } else if wire == WIRE_FIXED64 {
        if pos + 8 <= bytes.len() {
            Some(pos + 8)
        } else {
            None
        }
    } else if wire == WIRE_FIXED32 {
        if pos + 4 <= bytes.len() {
            Some(pos + 4)
        } else {
            None
        }
    } else if wire == WIRE_LENGTH_DELIMITED {
        match delimited_at(bytes, pos) {
            None => None,
            Some((_, end)) => Some(end),
        }
    } else {
        None
    }
}

/// The position behind the group whose fields start at `pos`: fields are
/// passed over until a tag closes the group, whatever its field number. A
/// group inside a group is malformed, and so is a group that the input does
/// not close.
pub open spec fn group_end(bytes: Seq<u8>, pos: int) -> Option<int>
    decreases bytes.len() - pos,
{
    match tag_at(bytes, pos) {
        None => None,
        Some((_, wire, next)) => if wire == WIRE_END_GROUP {
            Some(next)
        } else {
            match value_end(bytes, next, wire) {
                None => None,
                Some(after) => if pos < after <= bytes.len() {
                    group_end(bytes, after)
                } else {
                    None
                },
            }
        },
    }
}

/// An instantiate response as the wire gives it: the bytes of the address
/// and the bytes of the data.
pub struct RawResponse {
    pub contract_address: Seq<u8>,
    pub data: Seq<u8>,
}

/// The fields of an instantiate response read from `pos` to the end of the
/// input, starting from the values in `so_far`.
///
/// Field 1 is the contract address, a length-delimited UTF-8 text. Field 2 is
/// the data, length-delimited bytes. Where a field comes twice, the later
/// value stands. Fields with other numbers are passed over, groups included.
pub open spec fn fields_from(bytes: Seq<u8>, pos: int, so_far: RawResponse) -> Option<RawResponse>
    decreases bytes.len() - pos,
{
    if pos >= bytes.len() {
        Some(so_far)
    } else {
        match tag_at(bytes, pos) {
            None => None,
            Some((field, wire, next)) => if field == 1 || field == 2 {
                if wire != WIRE_LENGTH_DELIMITED {
                    None
                } else {
                    match delimited_at(bytes, next) {
                        None => None,
                        Some((start, end)) => if !(pos < end <= bytes.len()) {
                            None
                        } else if field == 2 {
                            fields_from(
                                bytes,
                                end,
                                RawResponse { data: bytes.subrange(start, end), ..so_far },
                            )
                        } else if valid_utf8(bytes.subrange(start, end)) {
                            fields_from(
                                bytes,
                                end,
                                RawResponse {
                                    contract_address: bytes.subrange(start, end),
                                    ..so_far
                                },
                            )
                        } else {
                            None
                        },
                    }
                }
            } else {
                match if wire == WIRE_START_GROUP {
                    group_end(bytes, next)
                } else {
                    value_end(bytes, next, wire)
                } {
                    None => None,
                    Some(after) => if pos < after <= bytes.len() {
                        fields_from(bytes, after, so_far)
                    } else {
                        None
                    },
                }
            },
        }
    }
}

/// What an instantiate response says, with the address as text.
pub struct MsgInstantiateContractResponseView {
    pub contract_address: Seq<char>,
    pub data: Seq<u8>,
}

/// The instantiate response that `bytes` encode, or `None` where they encode
/// none. A field that is absent is empty.
pub open spec fn parse_response(bytes: Seq<u8>) -> Option<MsgInstantiateContractResponseView> {
    match fields_from(
        bytes,
        0,
        RawResponse { contract_address: Seq::empty(), data: Seq::empty() },
    ) {
        None => None,
        Some(raw) => Some(
            MsgInstantiateContractResponseView {
                contract_address: decode_utf8(raw.contract_address),
                data: raw.data,
            },
        ),
    }
}

/// Reads the varint that starts at `pos`.
fn read_varint(bytes: &[u8], pos: usize) -> (r: Option<(u64, usize)>)
    requires
        pos <= bytes@.len(),
    ensures
        match r {
            Some((value, next)) => varint_at(bytes@, pos as int) == Some((value, next as int))
                && pos < next <= bytes@.len(),
            None => varint_at(bytes@, pos as int) is None,
        },
{
    let len: usize = bytes.len();
    let mut n: usize = 0;
    loop
        invariant_except_break
            n <= 10,
            len == bytes@.len(),
            pos + n <= bytes@.len() <= usize::MAX,
            varint_width(bytes@, pos as int, 0) == varint_width(bytes@, pos as int, n as int),
        ensures
            n < 10,
            pos + n < bytes@.len() <= usize::MAX,
            varint_width(bytes@, pos as int, 0) == Some(n + 1),
        decreases 10 - n,
    {
        if n >= 10 || n >= len - pos {
            return None;
        }
        if bytes[pos + n] < 0x80 {
            break ;
        }
        n += 1;
    }
    let width: usize = n + 1;
    let mut i: usize = width;
    let mut value: u64 = 0;
    while i > 0
        invariant
            i <= width,
            pos + width <= bytes@.len() <= usize::MAX,
            value == varint_value(bytes@, pos + i, width - i),
        decreases i,
    {
        i -= 1;
        let digit: u128 = (bytes[pos + i] % 0x80) as u128;
        value = ((digit + 0x80 * (value as u128)) % 0x1_0000_0000_0000_0000) as u64;
    }
    Some((value, pos + width))
}

/// Reads the tag that starts at `pos`.
fn read_tag(bytes: &[u8], pos: usize) -> (r: Option<(u32, u8, usize)>)
    requires
        pos <= bytes@.len(),
    ensures
        match r {
            Some((field, wire, next)) => tag_at(bytes@, pos as int) == Some(
                (field, wire, next as int),
            ) && pos < next <= bytes@.len() && wire <= 5 && field != 0,
            None => tag_at(bytes@, pos as int) is None,
        },
{
    match read_varint(bytes, pos) {
        None => None,
        Some((value, next)) => {
            let tag: u64 = value % 0x1_0000_0000;
            if tag % 8 > 5 || tag / 8 == 0 {
                None
            } else {
                Some(((tag / 8) as u32, (tag % 8) as u8, next))
            }
        },
    }
}

/// Reads the bounds of the length-delimited value that starts at `pos`.
fn read_delimited(bytes: &[u8], pos: usize) -> (r: Option<(usize, usize)>)
    requires
        pos <= bytes@.len(),
    ensures
        match r {
            Some((start, end)) => delimited_at(bytes@, pos as int) == Some(
                (start as int, end as int),
            ) && pos < start <= end <= bytes@.len(),
            None => delimited_at(bytes@, pos as int) is None,
        },
{
    match read_varint(bytes, pos) {
        None => None,
        Some((value, start)) => {
            let length: u64 = value % 0x1_0000_0000;
            if length > (bytes.len() - start) as u64 {
                None
            } else {
                Some((start, start + length as usize))
            }
        },
    }
}

/// Passes over the value of wire type `wire` that starts at `pos`.
fn skip_value(bytes: &[u8], pos: usize, wire: u8) -> (r: Option<usize>)
    requires
        pos <= bytes@.len(),
    ensures
        match r {
            Some(after) => value_end(bytes@, pos as int, wire) == Some(after as int) && pos
                < after <= bytes@.len(),
            None => value_end(bytes@, pos as int, wire) is None,
        },
{
    if wire == WIRE_VARINT {
        match read_varint(bytes, pos) {
            None => None,
            Some((_, next)) => Some(next),
        }
    } else if wire == WIRE_FIXED64 {
        if bytes.len() - pos >= 8 {
            Some(pos + 8)
        } else {
            None
        }
    } else if wire == WIRE_FIXED32 {
        if bytes.len() - pos >= 4 {
            Some(pos + 4)
        } else {
            None
        }
    } else if wire == WIRE_LENGTH_DELIMITED {
        match read_delimited(bytes, pos) {
            None => None,
            Some((_, end)) => Some(end),
        }
    } else {
        None
    }
}

/// Passes over the group whose fields start at `pos`.
fn skip_group(bytes: &[u8], pos: usize) -> (r: Option<usize>)
    requires
        pos <= bytes@.len(),
    ensures
        match r {
            Some(after) => group_end(bytes@, pos as int) == Some(after as int) && pos < after
                <= bytes@.len(),
            None => group_end(bytes@, pos as int) is None,
        },
{
    let mut at: usize = pos;
    loop
        invariant
            pos <= at <= bytes@.len(),
            group_end(bytes@, pos as int) == group_end(bytes@, at as int),
        decreases bytes@.len() - at,
    {
        let (wire, next) = match read_tag(bytes, at) {
            None => return None,
            Some((_, wire, next)) => (wire, next),
        };
        if wire == WIRE_END_GROUP {
            return Some(next);
        }
        at = match skip_value(bytes, next, wire) {
            None => return None,
            Some(after) => after,
        };
    }
}

/// Turns bytes into the text they encode. Trusted: `String::from_utf8`
/// succeeds exactly on well-formed UTF-8 and then holds the characters that
/// the bytes encode.
#[verifier::external_body]
fn string_from_utf8(bytes: Vec<u8>) -> (r: Option<String>)
    ensures
        r is Some <==> valid_utf8(bytes@),
        r matches Some(text) ==> text@ == decode_utf8(bytes@),
{
    String::from_utf8(bytes).ok()
}

/// What the chain reports when it has instantiated a contract.
#[derive(Debug, PartialEq, Eq)]
pub struct MsgInstantiateContractResponse {
    pub contract_address: String,
    pub data: Vec<u8>,
}

impl View for MsgInstantiateContractResponse {
    type V = MsgInstantiateContractResponseView;

    open spec fn view(&self) -> MsgInstantiateContractResponseView {
        MsgInstantiateContractResponseView {
            contract_address: self.contract_address@,
            data: self.data@,
        }
    }
}

impl MsgInstantiateContractResponse {
    /// Decodes an instantiate response from its wire form.
    pub fn parse_from_bytes(bytes: &[u8]) -> (r: Result<
        MsgInstantiateContractResponse,
        ContractError,
    >)
        ensures
            match r {
                Ok(response) => parse_response(bytes@) == Some(response@),
                Err(e) => parse_response(bytes@) is None && e@ == ErrorView::ParseError,
            },
    {
        let mut contract_address = String::new();
        let mut data: Vec<u8> = Vec::new();
        let mut pos: usize = 0;
        let ghost mut raw = RawResponse { contract_address: Seq::empty(), data: Seq::empty() };
        proof {
            assert(valid_utf8(raw.contract_address));
            assert(decode_utf8(raw.contract_address) =~= Seq::<char>::empty());
        }
        while pos < bytes.len()
            invariant
                pos <= bytes@.len(),
                fields_from(
                    bytes@,
                    0,
                    RawResponse { contract_address: Seq::empty(), data: Seq::empty() },
                ) == fields_from(bytes@, pos as int, raw),
                valid_utf8(raw.contract_address),
                contract_address@ == decode_utf8(raw.contract_address),
                data@ == raw.data,
            decreases bytes@.len() - pos,
        {
            let (field, wire, next) = match read_tag(bytes, pos) {
                None => return Err(ContractError::ParseError),
                Some(tag) => tag,
            };
            if field == 1 || field == 2 {
                if wire != WIRE_LENGTH_DELIMITED {
                    return Err(ContractError::ParseError);
                }
                let (start, end) = match read_delimited(bytes, next) {
                    None => return Err(ContractError::ParseError),
                    Some(bounds) => bounds,
                };
                let value = slice_to_vec(slice_subrange(bytes, start, end));
                if field == 2 {
                    data = value;
                    proof {
                        raw = RawResponse { data: bytes@.subrange(start as int, end as int), ..raw };
                    }
                } else {
                    contract_address = match string_from_utf8(value) {
                        None => return Err(ContractError::ParseError),
                        Some(text) => text,
                    };
                    proof {
                        raw = RawResponse {
                            contract_address: bytes@.subrange(start as int, end as int),
                            ..raw
                        };
                    }
                }
                pos = end;
            } else {
                let skipped = if wire == WIRE_START_GROUP {
                    skip_group(bytes, next)
                } else {
                    skip_value(bytes, next, wire)
                };
                pos = match skipped {
                    None => return Err(ContractError::ParseError),
                    Some(after) => after,
                };
            }
        }
        Ok(MsgInstantiateContractResponse { contract_address, data })
    }

    /// The address of the contract that was instantiated.
    pub fn get_contract_address(&self) -> (r: &str)
        ensures
            r@ == self@.contract_address,
    {
        self.contract_address.as_str()
    }
}

} // verus!
