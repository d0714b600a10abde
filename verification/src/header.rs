//! The message header: who sent a message, a random identifier, a little
//! metadata, and the sender's signature over these three.

use crate::codec::{
    append_bytes, array_at, codec_accepts, lemma_length_prefix, lemma_length_prefix_unique,
    length_prefixed, read_length_prefix, serialise_bytes, LENGTH_PREFIX_LEN,
};
use crate::crypto::{
    detached_signature, initialise_sodiumoxide, is_key_pair, random_bytes, sha512,
    sha512_digest, sign_detached, signature_verifies, verify_detached,
};
use crate::error::Error;
use crate::keys::{PublicKey, SecretKey, Signature, XorName, SIGNATURE_LEN, XOR_NAME_LEN};
use crate::render::{abbreviated_hex, format_binary_array};
use vstd::bytes::spec_u64_to_le_bytes;
use vstd::prelude::*;
use vstd::slice::{slice_subrange, slice_to_vec};
use vstd::string::StringExecFns;

verus! {

/// Maximum allowed length of a header's metadata, in bytes.
pub const MAX_HEADER_METADATA_SIZE: usize = 128;

/// Number of bytes in a header's unique identifier.
pub const GUID_SIZE: usize = 16;

/// Where the length of the metadata stands in an encoded header: behind the
/// sender's name and the identifier.
pub const LENGTH_OFFSET: usize = XOR_NAME_LEN + GUID_SIZE;

/// Where the metadata starts in an encoded header: behind its length.
pub const METADATA_OFFSET: usize = LENGTH_OFFSET + LENGTH_PREFIX_LEN;

/// Number of bytes in an encoded header besides its metadata.
pub const FRAME_LEN: usize = METADATA_OFFSET + SIGNATURE_LEN;

/// What a header is, as mathematics: four byte strings.
pub struct HeaderView {
    pub sender: Seq<u8>,
    pub guid: Seq<u8>,
    pub metadata: Seq<u8>,
    pub signature: Seq<u8>,
}

/// The canonical encoding of the signed part of a header: the sender's name,
/// the identifier, and the metadata behind its length.
pub open spec fn detail_encoding(sender: Seq<u8>, guid: Seq<u8>, metadata: Seq<u8>) -> Seq<u8> {
    sender + guid + length_prefixed(metadata)
}

impl HeaderView {
    /// The widths that every header has.
    pub open spec fn well_formed(self) -> bool {
        &&& self.sender.len() == XOR_NAME_LEN
        &&& self.guid.len() == GUID_SIZE
        &&& self.metadata.len() <= MAX_HEADER_METADATA_SIZE
        &&& self.signature.len() == SIGNATURE_LEN
    }

    /// The codec encodes the header.
    pub open spec fn encodable(self) -> bool {
        codec_accepts(self.metadata)
    }

    /// The bytes that the signature covers.
    pub open spec fn signed_bytes(self) -> Seq<u8> {
        detail_encoding(self.sender, self.guid, self.metadata)
    }

    /// The canonical encoding of the whole header: the signed bytes, then
    /// the signature.
    pub open spec fn encoding(self) -> Seq<u8> {
        self.signed_bytes() + self.signature
    }

    /// The signature is the one that `secret_key` gives to the signed bytes.
    pub open spec fn signed_with(self, secret_key: Seq<u8>) -> bool {
        self.signature == detached_signature(self.signed_bytes(), secret_key)
    }

    /// The header can be encoded, and its signature is accepted for the
    /// signed bytes under `public_key`.
    pub open spec fn verifies_under(self, public_key: Seq<u8>) -> bool {
        self.encodable() && signature_verifies(self.signature, self.signed_bytes(), public_key)
    }

    /// The name of the header: the digest of its encoding.
    pub open spec fn name(self) -> Seq<u8> {
        sha512_digest(self.encoding())
    }
}

/// The error that stops the construction of a header with `metadata`, if
/// there is one: metadata over the limit, or metadata within the limit that
/// the codec refuses.
pub open spec fn construction_error(metadata: Seq<u8>) -> Option<Error> {
    if metadata.len() > MAX_HEADER_METADATA_SIZE {
        Some(Error::MetadataTooLarge)
    } else if !codec_accepts(metadata) {
        Some(Error::SerializationFailed)
    } else {
        None
    }
}

/// The header that `secret_key` makes of the three parts.
pub open spec fn signed_header(
    sender: Seq<u8>,
    guid: Seq<u8>,
    metadata: Seq<u8>,
    secret_key: Seq<u8>,
) -> HeaderView {
    HeaderView {
        sender,
        guid,
        metadata,
        signature: detached_signature(detail_encoding(sender, guid, metadata), secret_key),
    }
}

/// The header that `bytes` encode, if they encode one: the fields are cut out
/// of `bytes` by their widths, of which only that of the metadata varies, and
/// the length written in front of the metadata must be the one that is left
/// for it.
pub open spec fn decoding(bytes: Seq<u8>) -> Option<HeaderView> {
    let metadata_len = bytes.len() - FRAME_LEN;
    if 0 <= metadata_len <= MAX_HEADER_METADATA_SIZE && bytes.subrange(
        LENGTH_OFFSET as int,
        METADATA_OFFSET as int,
    ) == spec_u64_to_le_bytes(metadata_len as u64) {
        Some(
            HeaderView {
                sender: bytes.subrange(0, XOR_NAME_LEN as int),
                guid: bytes.subrange(XOR_NAME_LEN as int, LENGTH_OFFSET as int),
                metadata: bytes.subrange(METADATA_OFFSET as int, METADATA_OFFSET + metadata_len),
                signature: bytes.subrange(METADATA_OFFSET + metadata_len, bytes.len() as int),
            },
        )
    } else {
        None
    }
}

/// Decoding undoes encoding: the encoding of a header decodes to that header.
pub proof fn lemma_decoding_inverts_encoding(header: HeaderView)
    requires
        header.well_formed(),
    ensures
        decoding(header.encoding()) == Some(header),
{
    let bytes = header.encoding();
    let prefix = spec_u64_to_le_bytes(header.metadata.len() as u64);
    lemma_length_prefix(header.metadata.len() as u64);
    assert(bytes.len() == FRAME_LEN + header.metadata.len());
    assert(bytes.subrange(LENGTH_OFFSET as int, METADATA_OFFSET as int) =~= prefix);
    let decoded = decoding(bytes)->Some_0;
    assert(decoded.sender =~= header.sender);
    assert(decoded.guid =~= header.guid);
    assert(decoded.metadata =~= header.metadata);
    assert(decoded.signature =~= header.signature);
}

/// Whatever decodes is the encoding of what it decodes to, and that is a
/// header of the right widths.
pub proof fn lemma_decoding_is_sound(bytes: Seq<u8>)
    ensures
        decoding(bytes) matches Some(header) ==> header.well_formed() && header.encoding()
            == bytes,
{
    if let Some(header) = decoding(bytes) {
        assert(header.encoding() =~= bytes);
    }
}

/// Two headers with one encoding are one header.
pub proof fn lemma_encoding_is_injective(first: HeaderView, second: HeaderView)
    requires
        first.well_formed(),
        second.well_formed(),
        first.encoding() == second.encoding(),
    ensures
        first == second,
{
    lemma_decoding_inverts_encoding(first);
    lemma_decoding_inverts_encoding(second);
}

/// A header verifies under the public key of the secret key that signed it:
/// whatever the sender, the identifier and the metadata, if a header can be
/// made of them, the one that `secret_key` makes is accepted under a public
/// key that belongs to `secret_key`.
pub proof fn lemma_signer_key_verifies(
    sender: Seq<u8>,
    guid: Seq<u8>,
    metadata: Seq<u8>,
    secret_key: Seq<u8>,
    public_key: Seq<u8>,
)
    requires
        construction_error(metadata) is None,
        is_key_pair(public_key, secret_key),
    ensures
        signed_header(sender, guid, metadata, secret_key).verifies_under(public_key),
{
}

/// The name of a header is a function of its encoding: headers that encode
/// alike are named alike.
pub proof fn lemma_name_follows_encoding(first: HeaderView, second: HeaderView)
    requires
        first.encoding() == second.encoding(),
    ensures
        first.name() == second.name(),
{
}

/// The diagnostic rendering of a header: its four fields by name, each as
/// abbreviated hexadecimal.
pub open spec fn rendering(header: HeaderView) -> Seq<char> {
    "MpidHeader { sender: "@ + abbreviated_hex(header.sender) + ", guid: "@ + abbreviated_hex(
        header.guid,
    ) + ", metadata: "@ + abbreviated_hex(header.metadata) + ", signature: "@ + abbreviated_hex(
        header.signature,
    ) + " }"@
}

/// The signed part of a header.
#[derive(PartialEq, Eq, Hash)]
struct Detail {
    sender: XorName,
    guid: [u8; GUID_SIZE],
    metadata: Vec<u8>,
}

/// Minimal information about a given message which can be used as a
/// notification to the receiver.
#[derive(PartialEq, Eq, Hash)]
pub struct MpidHeader {
    detail: Detail,
    signature: Signature,
}

impl View for MpidHeader {
    type V = HeaderView;

    closed spec fn view(&self) -> HeaderView {
        HeaderView {
            sender: self.detail.sender@,
            guid: self.detail.guid@,
            metadata: self.detail.metadata@,
            signature: self.signature@,
        }
    }
}

impl Clone for MpidHeader {
    fn clone(&self) -> (copy: MpidHeader)
        ensures
            copy@ == self@,
    {
        proof {
            use_type_invariant(self);
        }
        MpidHeader { detail: self.detail.duplicate(), signature: self.signature }
    }
}

/// Puts the fixed-width fields of the signed part in front of the metadata
/// as the codec wrote it.
pub fn frame_detail(
    sender: &XorName,
    guid: &[u8; GUID_SIZE],
    metadata_field: &[u8],
) -> (bytes: Vec<u8>)
    ensures
        bytes@ == sender@ + guid@ + metadata_field@,
{
    let mut bytes: Vec<u8> = Vec::new();
    append_bytes(&mut bytes, sender.0.as_slice());
    append_bytes(&mut bytes, guid.as_slice());
    append_bytes(&mut bytes, metadata_field);
    bytes
}

/// Puts the signature behind the encoded signed part.
pub fn frame_header(signed_bytes: &[u8], signature: &Signature) -> (bytes: Vec<u8>)
    ensures
        bytes@ == signed_bytes@ + signature@,
{
    let mut bytes: Vec<u8> = Vec::new();
    append_bytes(&mut bytes, signed_bytes);
    append_bytes(&mut bytes, signature.0.as_slice());
    bytes
}

impl Detail {
    /// A copy of the signed part.
    fn duplicate(&self) -> (copy: Detail)
        ensures
            copy.sender == self.sender,
            copy.guid == self.guid,
            copy.metadata@ == self.metadata@,
    {
        let mut metadata: Vec<u8> = Vec::new();
        append_bytes(&mut metadata, self.metadata.as_slice());
        Detail { sender: self.sender, guid: self.guid, metadata }
    }

    /// The canonical encoding of the signed part.
    fn encode(&self) -> (encoded: Result<Vec<u8>, Error>)
        ensures
            encoded is Ok == codec_accepts(self.metadata@),
            encoded matches Ok(bytes) ==> bytes@ == detail_encoding(
                self.sender@,
                self.guid@,
                self.metadata@,
            ),
            encoded matches Err(e) ==> e == Error::SerializationFailed,
    {
        match serialise_bytes(&self.metadata) {
            Ok(field) => Ok(frame_detail(&self.sender, &self.guid, field.as_slice())),
            Err(_) => Err(Error::SerializationFailed),
        }
    }
}

impl MpidHeader {
    #[verifier::type_invariant]
    spec fn metadata_within_limit(self) -> bool {
        self.detail.metadata@.len() <= MAX_HEADER_METADATA_SIZE
    }

    /// Constructor.
    ///
    /// Each new `MpidHeader` will have a random unique identifier assigned
    /// to it, accessed via the [`guid()`](#method.guid) getter.
    ///
    /// `sender` represents the name of the creator of the message.
    ///
    /// `metadata` is arbitrary, user-supplied information which must not
    /// exceed `MAX_HEADER_METADATA_SIZE`. It can be empty if desired.
    ///
    /// `secret_key` will be used to generate a signature of `sender`, `guid`
    /// and `metadata`.
    ///
    /// An error is returned if the cryptographic backend cannot be
    /// initialised, if `metadata` exceeds `MAX_HEADER_METADATA_SIZE`, or if
    /// serialisation during the signing process fails.
    pub fn new(sender: XorName, metadata: Vec<u8>, secret_key: &SecretKey) -> (result: Result<
        MpidHeader,
        Error,
    >)
        ensures
            result matches Ok(header) ==> {
                &&& construction_error(metadata@) is None
                &&& header@.well_formed()
                &&& header@.sender == sender@
                &&& header@.metadata == metadata@
                &&& header@.signed_with(secret_key@)
            },
            result matches Err(e) ==> e == Error::CryptoInitFailed || construction_error(
                metadata@,
            ) == Some(e),
    {
        if !initialise_sodiumoxide() {
            return Err(Error::CryptoInitFailed);
        }
        if metadata.len() > MAX_HEADER_METADATA_SIZE {
            return Err(Error::MetadataTooLarge);
        }
        let guid: [u8; GUID_SIZE] = random_bytes::<GUID_SIZE>();
        Self::with_guid(sender, guid, metadata, secret_key)
    }

    /// Signs the given parts, of which `guid` is the identifier that
    /// [`new()`](#method.new) would draw at random. Unlike `new()`, this
    /// does not initialise the cryptographic backend: signing does not
    /// depend on it.
    ///
    /// Metadata over the limit is refused with `MetadataTooLarge`, and
    /// metadata within the limit that the codec does not encode with
    /// `SerializationFailed`. All other metadata gives the signed header.
    pub fn with_guid(
        sender: XorName,
        guid: [u8; GUID_SIZE],
        metadata: Vec<u8>,
        secret_key: &SecretKey,
    ) -> (result: Result<MpidHeader, Error>)
        ensures
            match construction_error(metadata@) {
                Some(e) => result matches Err(found) && found == e,
                None => result matches Ok(header) && header@ == signed_header(
                    sender@,
                    guid@,
                    metadata@,
                    secret_key@,
                ) && header@.well_formed(),
            },
    {
        if metadata.len() > MAX_HEADER_METADATA_SIZE {
            return Err(Error::MetadataTooLarge);
        }
        let detail = Detail { sender, guid, metadata };
        match detail.encode() {
            Ok(encoded) => {
                let signature = sign_detached(encoded.as_slice(), secret_key);
                Ok(MpidHeader { detail, signature })
            },
            Err(e) => Err(e),
        }
    }

    /// The name of the creator of the message.
    pub fn sender(&self) -> (sender: &XorName)
        ensures
            sender@ == self@.sender,
    {
        &self.detail.sender
    }

    /// A unique identifier generated randomly when calling `new()`.
    pub fn guid(&self) -> (guid: &[u8; GUID_SIZE])
        ensures
            guid@ == self@.guid,
    {
        &self.detail.guid
    }

    /// Arbitrary, user-supplied information.
    pub fn metadata(&self) -> (metadata: &Vec<u8>)
        ensures
            metadata@ == self@.metadata,
            metadata@.len() <= MAX_HEADER_METADATA_SIZE,
    {
        proof {
            use_type_invariant(self);
        }
        &self.detail.metadata
    }

    /// The signature of `sender`, `guid` and `metadata`, created when
    /// calling `new()`.
    pub fn signature(&self) -> (signature: &Signature)
        ensures
            signature@ == self@.signature,
    {
        &self.signature
    }

    /// The canonical encoding of the header.
    pub fn encode(&self) -> (encoded: Result<Vec<u8>, Error>)
        ensures
            match encoded {
                Ok(bytes) => self@.encodable() && bytes@ == self@.encoding(),
                Err(e) => !self@.encodable() && e == Error::SerializationFailed,
            },
    {
        match self.detail.encode() {
            Ok(signed_bytes) => Ok(frame_header(signed_bytes.as_slice(), &self.signature)),
            Err(e) => Err(e),
        }
    }

    /// The header that `bytes` encode, or `None` if they encode none.
    pub fn decode(bytes: &[u8]) -> (header: Option<MpidHeader>)
        ensures
            match header {
                Some(decoded) => decoding(bytes@) == Some(decoded@) && decoded@.well_formed(),
                None => decoding(bytes@) is None,
            },
    {
        let total: usize = bytes.len();
        if total < FRAME_LEN {
            return None;
        }
        let metadata_len: usize = total - FRAME_LEN;
        if metadata_len > MAX_HEADER_METADATA_SIZE {
            return None;
        }
        let written: u64 = read_length_prefix(bytes, LENGTH_OFFSET);
        proof {
            lemma_length_prefix(metadata_len as u64);
            lemma_length_prefix_unique(
                bytes@.subrange(LENGTH_OFFSET as int, METADATA_OFFSET as int),
            );
        }
        if written != metadata_len as u64 {
            return None;
        }
        let metadata_end: usize = METADATA_OFFSET + metadata_len;
        let detail = Detail {
            sender: XorName(array_at::<XOR_NAME_LEN>(bytes, 0)),
            guid: array_at::<GUID_SIZE>(bytes, XOR_NAME_LEN),
            metadata: slice_to_vec(slice_subrange(bytes, METADATA_OFFSET, metadata_end)),
        };
        let signature = Signature(array_at::<SIGNATURE_LEN>(bytes, metadata_end));
        Some(MpidHeader { detail, signature })
    }

    /// The name of the header. This is a relatively expensive getter: the
    /// name is the SHA-512 digest of the encoded header, so its use should
    /// be minimised.
    pub fn name(&self) -> (name: Result<XorName, Error>)
        ensures
            match name {
                Ok(digest) => self@.encodable() && digest@ == self@.name(),
                Err(e) => !self@.encodable() && e == Error::SerializationFailed,
            },
    {
        match self.encode() {
            Ok(encoded) => Ok(XorName(sha512(encoded.as_slice()))),
            Err(e) => Err(e),
        }
    }

    /// A one-line rendering of the header for diagnostics.
    pub fn to_debug_string(&self) -> (text: String)
        ensures
            text@ == rendering(self@),
    {
        let mut text = String::from_str("MpidHeader { sender: ");
        text.append(format_binary_array(self.detail.sender.0.as_slice()).as_str());
        text.append(", guid: ");
        text.append(format_binary_array(self.detail.guid.as_slice()).as_str());
        text.append(", metadata: ");
        text.append(format_binary_array(self.detail.metadata.as_slice()).as_str());
        text.append(", signature: ");
        text.append(format_binary_array(self.signature.0.as_slice()).as_str());
        text.append(" }");
        text
    }

    /// Validates the header's signature against the provided `PublicKey`.
    /// A header that cannot be encoded has no valid signature.
    pub fn verify(&self, public_key: &PublicKey) -> (valid: bool)
        ensures
            valid == self@.verifies_under(public_key@),
    {
        match self.detail.encode() {
            Ok(encoded) => verify_detached(&self.signature, encoded.as_slice(), public_key),
            Err(_) => false,
        }
    }
}

} // verus!
