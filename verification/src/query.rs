use vstd::prelude::*;

verus! {

/// A query received by a queryable, held as the plain values that Zenoh
/// reports for it.
pub struct Query {
    keyexpr: String,
    params: String,
    payload: Vec<u8>,
    encoding: String,
    attachment: Option<Vec<u8>>,
}

impl Query {
    pub closed spec fn spec_keyexpr(&self) -> Seq<char> {
        self.keyexpr@
    }

    pub closed spec fn spec_params(&self) -> Seq<char> {
        self.params@
    }

    pub closed spec fn spec_payload(&self) -> Seq<u8> {
        self.payload@
    }

    pub closed spec fn spec_encoding(&self) -> Seq<char> {
        self.encoding@
    }

    pub closed spec fn spec_attachment(&self) -> Option<Seq<u8>> {
        match self.attachment {
            Some(a) => Some(a@),
            None => None,
        }
    }

    /// The query with the given key expression, parameters, payload,
    /// encoding (in its textual form) and optional attachment.
    pub fn new(
        keyexpr: String,
        params: String,
        payload: Vec<u8>,
        encoding: String,
        attachment: Option<Vec<u8>>,
    ) -> (r: Self)
        ensures
            r.spec_keyexpr() == keyexpr@,
            r.spec_params() == params@,
            r.spec_payload() == payload@,
            r.spec_encoding() == encoding@,
            r.spec_attachment() == (match attachment {
                Some(a) => Some(a@),
                None => None::<Seq<u8>>,
            }),
    {
        Query { keyexpr, params, payload, encoding, attachment }
    }

    /// The key expression the query was addressed to.
    pub fn keyexpr(&self) -> (r: &str)
        ensures
            r@ == self.spec_keyexpr(),
    {
        self.keyexpr.as_str()
    }

    /// The selector parameters of the query.
    pub fn params(&self) -> (r: &str)
        ensures
            r@ == self.spec_params(),
    {
        self.params.as_str()
    }

    /// The payload of the query.
    pub fn payload(&self) -> (r: &[u8])
        ensures
            r@ == self.spec_payload(),
    {
        self.payload.as_slice()
    }

    /// The encoding of the payload, in its textual form.
    pub fn encoding(&self) -> (r: &str)
        ensures
            r@ == self.spec_encoding(),
    {
        self.encoding.as_str()
    }

    /// The attachment of the query, if it has one.
    pub fn attachment(&self) -> (r: Option<&[u8]>)
        ensures
            r matches Some(a) ==> self.spec_attachment() == Some(a@),
            r is None ==> self.spec_attachment() is None,
    {
        match &self.attachment {
            Some(a) => Some(a.as_slice()),
            None => None,
        }
    }
}

} // verus!
