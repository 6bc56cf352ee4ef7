//! The stored form of a custody record.
//!
//! A record is stored as an 8-byte tag that marks it as a record of this
//! engine, the client and the provider (32 bytes each), the amount (8 bytes,
//! little-endian), the status (1 byte), the service descriptor (its length
//! in bytes as 4 bytes little-endian, then its UTF-8), and the time of
//! creation (8 bytes, little-endian two's complement).

use crate::pubkey::{key_bytes, Pubkey};
use crate::state::{EscrowAccount, EscrowError, EscrowStatus, MAX_SERVICE_TYPE_LEN};
use vstd::bytes::{
    lemma_auto_spec_u32_to_from_le_bytes, lemma_auto_spec_u64_to_from_le_bytes,
    spec_u32_from_le_bytes, spec_u32_to_le_bytes, spec_u64_from_le_bytes, spec_u64_to_le_bytes,
    u32_from_le_bytes, u32_to_le_bytes, u64_from_le_bytes, u64_to_le_bytes,
};
use vstd::prelude::*;
use vstd::slice::{slice_subrange, slice_to_vec};
use vstd::utf8::{encode_utf8, encode_utf8_decode_utf8, encode_utf8_valid_utf8, valid_utf8};

verus! {

/// The tag that opens every stored record.
pub open spec fn discriminator() -> Seq<u8> {
    seq![36u8, 69, 48, 18, 128, 225, 125, 135]
}

/// The byte that stands for a status.
pub open spec fn status_byte(status: EscrowStatus) -> u8 {
    match status {
        EscrowStatus::Created => 0,
        EscrowStatus::Delivered => 1,
        EscrowStatus::Released => 2,
        EscrowStatus::Disputed => 3,
    }
}

/// A time as the unsigned number with the same 64 bits.
pub open spec fn time_bits(time: i64) -> u64 {
    time as u64
}

impl EscrowAccount {
    /// The stored form of the record.
    pub open spec fn encoding(self) -> Seq<u8> {
        let service = encode_utf8(self.service_type@);
        discriminator() + self.client@ + self.provider@ + spec_u64_to_le_bytes(self.amount)
            + seq![status_byte(self.status)] + spec_u32_to_le_bytes(service.len() as u32) + service
            + spec_u64_to_le_bytes(time_bits(self.created_at))
    }

    /// The stored form falls into its fields at fixed places, and is exactly
    /// as long as `space` says.
    pub proof fn lemma_encoding_layout(self)
        requires
            self.wf(),
        ensures
            ({
                let stored = self.encoding();
                let service = encode_utf8(self.service_type@);
                let n = service.len() as int;
                &&& stored.len() == Self::spec_space(self.service_type@)
                &&& stored.len() == 93 + n
                &&& stored.subrange(0, 8) == discriminator()
                &&& stored.subrange(8, 40) == self.client@
                &&& stored.subrange(40, 72) == self.provider@
                &&& stored.subrange(72, 80) == spec_u64_to_le_bytes(self.amount)
                &&& stored[80] == status_byte(self.status)
                &&& stored.subrange(81, 85) == spec_u32_to_le_bytes(n as u32)
                &&& stored.subrange(85, 85 + n) == service
                &&& stored.subrange(85 + n, 93 + n) == spec_u64_to_le_bytes(
                    time_bits(self.created_at),
                )
            }),
    {
        lemma_auto_spec_u32_to_from_le_bytes();
        lemma_auto_spec_u64_to_from_le_bytes();
        let stored = self.encoding();
        let service = encode_utf8(self.service_type@);
        let n = service.len() as int;
        assert(stored.subrange(0, 8) =~= discriminator());
        assert(stored.subrange(8, 40) =~= self.client@);
        assert(stored.subrange(40, 72) =~= self.provider@);
        assert(stored.subrange(72, 80) =~= spec_u64_to_le_bytes(self.amount));
        assert(stored.subrange(81, 85) =~= spec_u32_to_le_bytes(n as u32));
        assert(stored.subrange(85, 85 + n) =~= service);
        assert(stored.subrange(85 + n, 93 + n) =~= spec_u64_to_le_bytes(
            time_bits(self.created_at),
        ));
    }
}

/// The byte that stands for a status.
pub fn status_to_byte(status: EscrowStatus) -> (byte: u8)
    ensures
        byte == status_byte(status),
{
    match status {
        EscrowStatus::Created => 0,
        EscrowStatus::Delivered => 1,
        EscrowStatus::Released => 2,
        EscrowStatus::Disputed => 3,
    }
}

/// The status that a byte stands for, if it stands for one.
pub fn status_from_byte(byte: u8) -> (status: Option<EscrowStatus>)
    ensures
        match status {
            Some(status) => status_byte(status) == byte,
            None => forall|any: EscrowStatus| status_byte(any) != byte,
        },
{
    match byte {
        0 => Some(EscrowStatus::Created),
        1 => Some(EscrowStatus::Delivered),
        2 => Some(EscrowStatus::Released),
        3 => Some(EscrowStatus::Disputed),
        _ => None,
    }
}

/// The unsigned number with the same 64 bits as a time.
fn time_to_bits(time: i64) -> (bits: u64)
    ensures
        bits == time_bits(time),
{
    time as u64
}

/// The time with the same 64 bits as an unsigned number.
fn time_from_bits(bits: u64) -> (time: i64)
    ensures
        time_bits(time) == bits,
{
    let time = bits as i64;
    assert((bits as i64) as u64 == bits) by (bit_vector);
    time
}

impl EscrowAccount {
    /// Writes the record in its stored form. A record that creation would
    /// not have made is not written.
    pub fn try_serialize(&self) -> (stored: Result<Vec<u8>, EscrowError>)
        ensures
            match stored {
                Ok(bytes) => self.wf() && bytes@ == self.encoding(),
                Err(e) => if encode_utf8(self.service_type@).len() > MAX_SERVICE_TYPE_LEN {
                    e == EscrowError::ServiceTypeTooLong
                } else {
                    self.amount == 0 && e == EscrowError::InvalidAmount
                },
            },
    {
        let service = self.service_type.as_str().as_bytes();
        if service.len() > MAX_SERVICE_TYPE_LEN {
            return Err(EscrowError::ServiceTypeTooLong);
        }
        if self.amount == 0 {
            return Err(EscrowError::InvalidAmount);
        }
        let mut out: Vec<u8> = Vec::new();
        out.push(36);
        out.push(69);
        out.push(48);
        out.push(18);
        out.push(128);
        out.push(225);
        out.push(125);
        out.push(135);
        assert(out@ =~= discriminator());
        let mut client = key_bytes(&self.client);
        out.append(&mut client);
        let mut provider = key_bytes(&self.provider);
        out.append(&mut provider);
        let mut amount = u64_to_le_bytes(self.amount);
        out.append(&mut amount);
        out.push(status_to_byte(self.status));
        let mut length = u32_to_le_bytes(service.len() as u32);
        out.append(&mut length);
        let mut text = slice_to_vec(service);
        out.append(&mut text);
        let mut time = u64_to_le_bytes(time_to_bits(self.created_at));
        out.append(&mut time);
        assert(out@ =~= self.encoding());
        Ok(out)
    }
}

/// `String::from_utf8` of the standard library: the text whose UTF-8 is
/// `bytes`, where `bytes` is valid UTF-8, and nothing where it is not.
#[verifier::external_body]
fn string_from_utf8(bytes: Vec<u8>) -> (text: Option<String>)
    ensures
        match text {
            Some(text) => encode_utf8(text@) == bytes@,
            None => !valid_utf8(bytes@),
        },
{
    match String::from_utf8(bytes) {
        Ok(text) => Some(text),
        Err(_) => None,
    }
}

/// The key whose bytes are `bytes`.
fn key_from_slice(bytes: &[u8]) -> (key: Pubkey)
    requires
        bytes@.len() == 32,
    ensures
        key@ == bytes@,
{
    let mut array = [0u8;32];
    let mut i: usize = 0;
    while i < 32
        invariant
            i <= 32,
            bytes@.len() == 32,
            forall|j: int| 0 <= j < i ==> array@[j] == bytes@[j],
        decreases 32 - i,
    {
        array.set(i, bytes[i]);
        i += 1;
    }
    assert(array@ =~= bytes@);
    Pubkey { bytes: array }
}

/// Whether `data` opens with the tag of a stored record.
fn has_discriminator(data: &[u8]) -> (tagged: bool)
    requires
        data@.len() >= 8,
    ensures
        tagged == (data@.subrange(0, 8) == discriminator()),
{
    let tagged = data[0] == 36 && data[1] == 69 && data[2] == 48 && data[3] == 18 && data[4] == 128
        && data[5] == 225 && data[6] == 125 && data[7] == 135;
    proof {
        let head = data@.subrange(0, 8);
        if tagged {
            assert(head =~= discriminator());
        } else {
            assert(head[0] == data@[0] && head[1] == data@[1] && head[2] == data@[2] && head[3]
                == data@[3] && head[4] == data@[4] && head[5] == data@[5] && head[6] == data@[6]
                && head[7] == data@[7]);
        }
    }
    tagged
}

/// What the stored form of every record that creation can make looks like:
/// the tag, a positive amount, a status byte that stands for a status, a
/// service descriptor of at most 32 bytes of valid UTF-8, and no byte more
/// or less.
pub open spec fn well_formed_layout(data: Seq<u8>) -> bool {
    &&& data.len() >= 93
    &&& data.subrange(0, 8) == discriminator()
    &&& spec_u64_from_le_bytes(data.subrange(72, 80)) > 0
    &&& data[80] <= 3
    &&& spec_u32_from_le_bytes(data.subrange(81, 85)) <= MAX_SERVICE_TYPE_LEN
    &&& data.len() == 93 + spec_u32_from_le_bytes(data.subrange(81, 85))
    &&& valid_utf8(data.subrange(85, data.len() - 8))
}

impl EscrowAccount {
    /// The stored form of a record that creation can make is well formed.
    pub proof fn lemma_encoding_is_well_formed(self)
        requires
            self.wf(),
        ensures
            well_formed_layout(self.encoding()),
    {
        self.lemma_encoding_layout();
        lemma_auto_spec_u32_to_from_le_bytes();
        lemma_auto_spec_u64_to_from_le_bytes();
        encode_utf8_valid_utf8(self.service_type@);
    }

    /// Reads a record from its stored form. Bytes that are not the stored
    /// form of a record that creation can make hold no record.
    pub fn try_deserialize(data: &[u8]) -> (loaded: Result<EscrowAccount, EscrowError>)
        ensures
            match loaded {
                Ok(record) => record.wf() && record.encoding() == data@,
                Err(e) => {
                    &&& e == EscrowError::RecordNotFound
                    &&& forall|record: EscrowAccount| record.wf() ==> record.encoding() != data@
                },
            },
    {
        proof {
            assert forall|record: EscrowAccount| record.wf() && record.encoding() == data@ implies well_formed_layout(
                data@,
            ) by {
                record.lemma_encoding_is_well_formed();
            }
            lemma_auto_spec_u32_to_from_le_bytes();
            lemma_auto_spec_u64_to_from_le_bytes();
        }
        if data.len() < 93 || !has_discriminator(data) {
            return Err(EscrowError::RecordNotFound);
        }
        let amount = u64_from_le_bytes(slice_subrange(data, 72, 80));
        let status = status_from_byte(data[80]);
        let length = u32_from_le_bytes(slice_subrange(data, 81, 85)) as usize;
        if amount == 0 || status.is_none() || length > MAX_SERVICE_TYPE_LEN || data.len() != 93
            + length {
            return Err(EscrowError::RecordNotFound);
        }
        let text = string_from_utf8(slice_to_vec(slice_subrange(data, 85, 85 + length)));
        match text {
            None => Err(EscrowError::RecordNotFound),
            Some(service_type) => {
                let record = EscrowAccount {
                    client: key_from_slice(slice_subrange(data, 8, 40)),
                    provider: key_from_slice(slice_subrange(data, 40, 72)),
                    amount,
                    status: status.unwrap(),
                    service_type,
                    created_at: time_from_bits(
                        u64_from_le_bytes(slice_subrange(data, 85 + length, 93 + length)),
                    ),
                };
                assert(record.encoding() =~= data@);
                Ok(record)
            },
        }
    }
}

/// Two records that creation can make and that are stored alike are the same
/// record: reading back what was written gives what was written.
pub proof fn lemma_encoding_is_injective(a: EscrowAccount, b: EscrowAccount)
    requires
        a.wf(),
        b.wf(),
        a.encoding() == b.encoding(),
    ensures
        a.client == b.client,
        a.provider == b.provider,
        a.amount == b.amount,
        a.status == b.status,
        a.service_type@ == b.service_type@,
        a.created_at == b.created_at,
{
    a.lemma_encoding_layout();
    b.lemma_encoding_layout();
    lemma_auto_spec_u32_to_from_le_bytes();
    lemma_auto_spec_u64_to_from_le_bytes();
    a.client.lemma_view_injective(b.client);
    a.provider.lemma_view_injective(b.provider);
    let n = encode_utf8(a.service_type@).len();
    let m = encode_utf8(b.service_type@).len();
    assert(n == m) by {
        assert(spec_u32_from_le_bytes(spec_u32_to_le_bytes(n as u32)) == n as u32);
        assert(spec_u32_from_le_bytes(spec_u32_to_le_bytes(m as u32)) == m as u32);
    }
    assert(a.service_type@ == b.service_type@) by {
        encode_utf8_decode_utf8(a.service_type@);
        encode_utf8_decode_utf8(b.service_type@);
    }
    assert(a.amount == b.amount) by {
        assert(spec_u64_from_le_bytes(spec_u64_to_le_bytes(a.amount)) == a.amount);
        assert(spec_u64_from_le_bytes(spec_u64_to_le_bytes(b.amount)) == b.amount);
    }
    assert(a.created_at == b.created_at) by {
        let x = a.created_at;
        let y = b.created_at;
        assert(spec_u64_from_le_bytes(spec_u64_to_le_bytes(time_bits(x))) == time_bits(x));
        assert(spec_u64_from_le_bytes(spec_u64_to_le_bytes(time_bits(y))) == time_bits(y));
        assert(x as u64 == y as u64 ==> x == y) by (bit_vector);
    }
}

} // verus!
