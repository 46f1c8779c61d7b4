//! Lookup providers: whom to ask for the public address, and how a reply is read.
//!
//! Providers do not agree on the shape of their replies, so each descriptor
//! names the field that carries the address. Replies are tried in the order of
//! the list and the first usable one wins.

use vstd::prelude::*;

verus! {

/// Seconds granted to one lookup request before it counts as timed out.
pub const FETCH_TIMEOUT_SECS: u64 = 10;

/// One lookup service: where to send the GET request, and the name of the
/// field of its reply that carries the address.
#[derive(Clone, Debug, PartialEq, Eq)]
pub struct ProviderDescriptor {
    pub endpoint: String,
    pub ip_field_name: String,
}

/// The mathematical value of a [`ProviderDescriptor`].
pub struct ProviderModel {
    pub endpoint: Seq<char>,
    pub ip_field_name: Seq<char>,
}

impl View for ProviderDescriptor {
    type V = ProviderModel;

    open spec fn view(&self) -> ProviderModel {
        ProviderModel { endpoint: self.endpoint@, ip_field_name: self.ip_field_name@ }
    }
}

/// The values of a list of descriptors, in the same order.
pub open spec fn provider_models(providers: Seq<ProviderDescriptor>) -> Seq<ProviderModel> {
    Seq::new(providers.len(), |i: int| providers[i]@)
}

/// What came back from one lookup request.
#[derive(Clone, Debug, PartialEq, Eq)]
pub enum ProviderResponse {
    /// No reply arrived within [`FETCH_TIMEOUT_SECS`].
    TimedOut,
    /// The request could not be carried out.
    Failed,
    /// A reply arrived, with this status code and this body.
    Received { status: u16, body: Vec<u8> },
}

/// The mathematical value of a [`ProviderResponse`].
pub enum ResponseModel {
    TimedOut,
    Failed,
    Received { status: u16, body: Seq<u8> },
}

impl View for ProviderResponse {
    type V = ResponseModel;

    open spec fn view(&self) -> ResponseModel {
        match *self {
            ProviderResponse::TimedOut => ResponseModel::TimedOut,
            ProviderResponse::Failed => ResponseModel::Failed,
            ProviderResponse::Received { status, body } => ResponseModel::Received {
                status,
                body: body@,
            },
        }
    }
}

/// The values of a list of responses, in the same order.
pub open spec fn response_models(responses: Seq<ProviderResponse>) -> Seq<ResponseModel> {
    Seq::new(responses.len(), |i: int| responses[i]@)
}

/// Why one provider gave no address. None of these ends a lookup: the next
/// provider is asked.
#[derive(Clone, Copy, Debug, PartialEq, Eq, Structural)]
pub enum ProviderFetchError {
    /// The request timed out.
    Timeout,
    /// The request could not be carried out.
    Transport,
    /// The reply carried a status code outside 200..=299.
    Status(u16),
    /// The body is not a JSON object of strings.
    MalformedBody,
    /// The body is such an object, but lacks the provider's field.
    MissingField,
}

/// Every provider of the list failed.
#[derive(Clone, Copy, Debug, PartialEq, Eq, Structural)]
pub struct AllProvidersFailed;

impl AllProvidersFailed {
    /// The text of the error.
    pub fn message(&self) -> (text: String)
        ensures
            text@ == "failed to complete request to all providers!"@,
    {
        String::from_str("failed to complete request to all providers!")
    }
}

/// What `serde_json::from_slice` makes of `body` when asked for a map from
/// strings to strings: the map, or `None` where it reports an error.
pub uninterp spec fn json_object(body: Seq<u8>) -> Option<Map<Seq<char>, Seq<char>>>;

/// The error type of `serde_json`. Its values are carried through and never
/// looked into.
#[verifier::external_type_specification]
#[verifier::external_body]
pub struct ExJsonError(serde_json::Error);

/// `entries` lists every key of `object` with its value, and nothing else.
pub open spec fn lists(entries: Seq<(String, String)>, object: Map<Seq<char>, Seq<char>>) -> bool {
    &&& forall|i: int|
        0 <= i < entries.len() ==> object.contains_key(#[trigger] entries[i].0@)
            && object[entries[i].0@] == entries[i].1@
    &&& forall|key: Seq<char>| #[trigger]
        object.contains_key(key) ==> exists|i: int| 0 <= i < entries.len() && entries[i].0@ == key
}

/// Calls `serde_json::from_slice` for a `HashMap<String, String>` and hands out
/// the entries of the map, in no particular order. The call succeeds exactly
/// where [`json_object`] is `Some`, and the entries are those of that map.
#[verifier::external_body]
fn parse_object(body: &[u8]) -> (parsed: Result<Vec<(String, String)>, serde_json::Error>)
    ensures
        match parsed {
            Ok(entries) => json_object(body@) matches Some(object) && lists(entries@, object),
            Err(_) => json_object(body@) is None,
        },
{
    let table: std::collections::HashMap<String, String> = serde_json::from_slice(body)?;
    Ok(table.into_iter().collect())
}

/// Returns a copy of the value of the first entry whose key is `name`, or
/// `None` where no entry carries that key.
pub fn field_value(entries: &Vec<(String, String)>, name: &String) -> (found: Option<String>)
    ensures
        match found {
            Some(value) => exists|i: int|
                0 <= i < entries.len() && entries[i].0@ == name@ && entries[i].1@ == value@
                    && forall|j: int| 0 <= j < i ==> entries[j].0@ != name@,
            None => forall|i: int| 0 <= i < entries.len() ==> entries[i].0@ != name@,
        },
{
    let mut i: usize = 0;
    while i < entries.len()
        invariant
            i <= entries.len(),
            forall|j: int| 0 <= j < i ==> entries[j].0@ != name@,
        decreases entries.len() - i,
    {
        if entries[i].0 == *name {
            return Some(entries[i].1.clone());
        }
        i += 1;
    }
    None
}

/// A status code that stands for success.
pub open spec fn is_success(status: u16) -> bool {
    200 <= status <= 299
}

/// What one response yields for one provider: the address under the provider's
/// field, or the reason why there is none.
pub open spec fn reading(provider: ProviderModel, response: ResponseModel) -> Result<
    Seq<char>,
    ProviderFetchError,
> {
    match response {
        ResponseModel::TimedOut => Err(ProviderFetchError::Timeout),
        ResponseModel::Failed => Err(ProviderFetchError::Transport),
        ResponseModel::Received { status, body } => if !is_success(status) {
            Err(ProviderFetchError::Status(status))
        } else {
            match json_object(body) {
                None => Err(ProviderFetchError::MalformedBody),
                Some(object) => if object.contains_key(provider.ip_field_name) {
                    Ok(object[provider.ip_field_name])
                } else {
                    Err(ProviderFetchError::MissingField)
                },
            }
        },
    }
}

/// `text` stands for `reading`: the same address, or the same error.
pub open spec fn read_as(
    text: Result<String, ProviderFetchError>,
    reading: Result<Seq<char>, ProviderFetchError>,
) -> bool {
    match text {
        Ok(ip) => reading == Ok::<Seq<char>, ProviderFetchError>(ip@),
        Err(error) => reading == Err::<Seq<char>, ProviderFetchError>(error),
    }
}

/// Reads the address out of one response, as [`reading`] defines it.
pub fn read_ip(provider: &ProviderDescriptor, response: &ProviderResponse) -> (result: Result<
    String,
    ProviderFetchError,
>)
    ensures
        read_as(result, reading(provider@, response@)),
{
    match response {
        ProviderResponse::TimedOut => Err(ProviderFetchError::Timeout),
        ProviderResponse::Failed => Err(ProviderFetchError::Transport),
        ProviderResponse::Received { status, body } => {
            if *status < 200 || *status > 299 {
                return Err(ProviderFetchError::Status(*status));
            }
            match parse_object(body.as_slice()) {
                Err(_) => Err(ProviderFetchError::MalformedBody),
                Ok(entries) => match field_value(&entries, &provider.ip_field_name) {
                    Some(ip) => Ok(ip),
                    None => Err(ProviderFetchError::MissingField),
                },
            }
        },
    }
}

/// The providers that are asked when no other list is given, in this order.
pub open spec fn default_list() -> Seq<ProviderModel> {
    seq![
        ProviderModel { endpoint: "https://httpbin.org/ip"@, ip_field_name: "origin"@ },
        ProviderModel { endpoint: "https://api.ipify.org/?format=json"@, ip_field_name: "ip"@ },
        ProviderModel { endpoint: "https://api.seeip.org/jsonip"@, ip_field_name: "ip"@ },
    ]
}

/// Builds the list of [`default_list`].
pub fn default_providers() -> (providers: Vec<ProviderDescriptor>)
    ensures
        provider_models(providers@) == default_list(),
{
    let mut providers: Vec<ProviderDescriptor> = Vec::new();
    providers.push(
        ProviderDescriptor {
            endpoint: String::from_str("https://httpbin.org/ip"),
            ip_field_name: String::from_str("origin"),
        },
    );
    providers.push(
        ProviderDescriptor {
            endpoint: String::from_str("https://api.ipify.org/?format=json"),
            ip_field_name: String::from_str("ip"),
        },
    );
    providers.push(
        ProviderDescriptor {
            endpoint: String::from_str("https://api.seeip.org/jsonip"),
            ip_field_name: String::from_str("ip"),
        },
    );
    assert(provider_models(providers@) =~= default_list());
    providers
}

/// Provider `i` has a response, and the response yields an address.
pub open spec fn answers(
    providers: Seq<ProviderModel>,
    responses: Seq<ResponseModel>,
    i: int,
) -> bool {
    0 <= i < providers.len() && i < responses.len() && reading(providers[i], responses[i]) is Ok
}

/// Provider `i` answers and no provider before it does.
pub open spec fn first_answer(
    providers: Seq<ProviderModel>,
    responses: Seq<ResponseModel>,
    i: int,
) -> bool {
    answers(providers, responses, i) && forall|j: int|
        0 <= j < i ==> !answers(providers, responses, j)
}

/// Runs one lookup over responses that are already at hand: `responses[i]` is
/// what provider `i` sent, and a provider without a response counts as failed.
///
/// The result is the address of the first provider that answers. Where none
/// does, the one error for the whole lookup comes back.
pub fn resolve(providers: &Vec<ProviderDescriptor>, responses: &Vec<ProviderResponse>) -> (fetched:
    Result<String, AllProvidersFailed>)
    ensures
        match fetched {
            Ok(ip) => exists|i: int|
                first_answer(provider_models(providers@), response_models(responses@), i)
                    && reading(providers[i]@, responses[i]@) == Ok::<
                    Seq<char>,
                    ProviderFetchError,
                >(ip@),
            Err(_) => forall|i: int|
                !answers(provider_models(providers@), response_models(responses@), i),
        },
{
    let mut i: usize = 0;
    while i < providers.len() && i < responses.len()
        invariant
            forall|j: int|
                0 <= j < i ==> !answers(
                    provider_models(providers@),
                    response_models(responses@),
                    j,
                ),
        decreases providers.len() - i,
    {
        match read_ip(&providers[i], &responses[i]) {
            Ok(ip) => {
                assert(first_answer(
                    provider_models(providers@),
                    response_models(responses@),
                    i as int,
                ));
                return Ok(ip);
            },
            Err(_) => {},
        }
        i += 1;
    }
    Err(AllProvidersFailed)
}

/// No two providers are the first to answer.
pub proof fn first_answer_is_unique(
    providers: Seq<ProviderModel>,
    responses: Seq<ResponseModel>,
    i: int,
    k: int,
)
    requires
        first_answer(providers, responses, i),
        first_answer(providers, responses, k),
    ensures
        i == k,
{
    if i < k {
        assert(!answers(providers, responses, i));
    } else if k < i {
        assert(!answers(providers, responses, k));
    }
}

/// What a lookup returns is settled by the responses up to the first answer:
/// whatever later providers sent, or whether they were asked at all, the same
/// provider is the first to answer, with the same address.
pub proof fn later_responses_are_irrelevant(
    providers: Seq<ProviderModel>,
    responses: Seq<ResponseModel>,
    others: Seq<ResponseModel>,
    i: int,
)
    requires
        first_answer(providers, responses, i),
        i < others.len(),
        forall|j: int| 0 <= j <= i ==> others[j] == responses[j],
    ensures
        first_answer(providers, others, i),
        reading(providers[i], others[i]) == reading(providers[i], responses[i]),
{
    assert forall|j: int| 0 <= j < i implies !answers(providers, others, j) by {
        assert(!answers(providers, responses, j));
    }
}

} // verus!
