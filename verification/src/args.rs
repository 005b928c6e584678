//! The creation request and its binary record.

use crate::codec::{
    after_text, begins_with_text, leading_text, lemma_frame_reads_back, lemma_text_writes_back,
    read_byte, read_text, text_fits, text_frame,
};
use crate::error::ProvisionError;
use vstd::prelude::*;

verus! {

/// What a caller asks for: the new token's display name, its ticker, where
/// its descriptive document lives, and the precision of its base unit.
#[derive(Clone, Debug, PartialEq, Eq)]
pub struct CreateTokenArgs {
    pub token_title: String,
    pub token_symbol: String,
    pub token_uri: String,
    pub token_decimals: u8,
}

/// A creation request as plain mathematics: three texts and a byte.
pub struct CreationRequest {
    pub title: Seq<char>,
    pub symbol: Seq<char>,
    pub uri: Seq<char>,
    pub decimals: u8,
}

impl View for CreateTokenArgs {
    type V = CreationRequest;

    open spec fn view(&self) -> CreationRequest {
        CreationRequest {
            title: self.token_title@,
            symbol: self.token_symbol@,
            uri: self.token_uri@,
            decimals: self.token_decimals,
        }
    }
}

impl CreationRequest {
    /// Whether the request has a record: each of its texts can be framed.
    pub open spec fn fits(self) -> bool {
        &&& text_fits(self.title)
        &&& text_fits(self.symbol)
        &&& text_fits(self.uri)
    }

    /// The request's record: title, symbol and uri, each framed, then the
    /// decimals byte, and nothing else.
    pub open spec fn encoding(self) -> Seq<u8>
        recommends
            self.fits(),
    {
        text_frame(self.title) + text_frame(self.symbol) + text_frame(self.uri) + seq![
            self.decimals,
        ]
    }

    /// The request that a record holds, read field by field from the front;
    /// `None` where a field cannot be read or bytes are left over.
    pub open spec fn decode(data: Seq<u8>) -> Option<CreationRequest> {
        let after_title = after_text(data);
        let after_symbol = after_text(after_title);
        let after_uri = after_text(after_symbol);
        if begins_with_text(data) && begins_with_text(after_title) && begins_with_text(
            after_symbol,
        ) && after_uri.len() == 1 {
            Some(
                CreationRequest {
                    title: leading_text(data),
                    symbol: leading_text(after_title),
                    uri: leading_text(after_symbol),
                    decimals: after_uri[0],
                },
            )
        } else {
            None
        }
    }
}

/// Reading a request's record gives the request back.
pub proof fn lemma_decode_inverts_encoding(request: CreationRequest)
    requires
        request.fits(),
    ensures
        CreationRequest::decode(request.encoding()) == Some(request),
{
    let tail = seq![request.decimals];
    let from_uri = text_frame(request.uri) + tail;
    let from_symbol = text_frame(request.symbol) + from_uri;
    let data = request.encoding();
    assert(data =~= text_frame(request.title) + from_symbol);
    lemma_frame_reads_back(request.title, from_symbol);
    lemma_frame_reads_back(request.symbol, from_uri);
    lemma_frame_reads_back(request.uri, tail);
}

/// Bytes that read as a request are exactly that request's record.
pub proof fn lemma_encoding_inverts_decode(data: Seq<u8>)
    requires
        CreationRequest::decode(data) is Some,
    ensures
        CreationRequest::decode(data).unwrap().fits(),
        CreationRequest::decode(data).unwrap().encoding() == data,
{
    let after_title = after_text(data);
    let after_symbol = after_text(after_title);
    let after_uri = after_text(after_symbol);
    let request = CreationRequest::decode(data).unwrap();
    lemma_text_writes_back(data);
    lemma_text_writes_back(after_title);
    lemma_text_writes_back(after_symbol);
    assert(after_uri =~= seq![request.decimals]);
    assert(request.encoding() =~= text_frame(request.title) + (text_frame(request.symbol) + (
    text_frame(request.uri) + after_uri)));
}

/// No two requests share a record.
pub proof fn lemma_encoding_is_injective(first: CreationRequest, second: CreationRequest)
    requires
        first.fits(),
        second.fits(),
        first.encoding() == second.encoding(),
    ensures
        first == second,
{
    lemma_decode_inverts_encoding(first);
    lemma_decode_inverts_encoding(second);
}

impl CreateTokenArgs {
    /// Decodes a request from its record.
    ///
    /// Succeeds exactly on the record of a request, and then returns that
    /// request. Missing bytes, bytes left over, a length prefix that runs
    /// past the end and text that is not UTF-8 are all refused.
    pub fn try_from_slice(data: &[u8]) -> (decoded: Result<CreateTokenArgs, ProvisionError>)
        ensures
            decoded matches Ok(args) ==> args@.fits() && args@.encoding() == data@,
            decoded matches Err(error) ==> error == ProvisionError::Decoding && forall|
                request: CreationRequest,
            |
                request.fits() ==> #[trigger] request.encoding() != data@,
            decoded is Ok <==> CreationRequest::decode(data@) is Some,
            decoded matches Ok(args) ==> CreationRequest::decode(data@) == Some(args@),
    {
        proof {
            assert forall|request: CreationRequest|
                request.fits() && #[trigger] request.encoding() == data@ implies CreationRequest::decode(
                data@,
            ) is Some by {
                lemma_decode_inverts_encoding(request);
            }
            if CreationRequest::decode(data@) is Some {
                lemma_encoding_inverts_decode(data@);
            }
        }
        let (token_title, rest) = match read_text(data) {
            Ok(read) => read,
            Err(_) => {
                return Err(ProvisionError::Decoding);
            },
        };
        let (token_symbol, rest) = match read_text(rest) {
            Ok(read) => read,
            Err(_) => {
                return Err(ProvisionError::Decoding);
            },
        };
        let (token_uri, rest) = match read_text(rest) {
            Ok(read) => read,
            Err(_) => {
                return Err(ProvisionError::Decoding);
            },
        };
        let (token_decimals, rest) = match read_byte(rest) {
            Ok(read) => read,
            Err(_) => {
                return Err(ProvisionError::Decoding);
            },
        };
        if rest.len() != 0 {
            return Err(ProvisionError::Decoding);
        }
        Ok(CreateTokenArgs { token_title, token_symbol, token_uri, token_decimals })
    }
}

} // verus!
