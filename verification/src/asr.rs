//! Speech recognition, as far as it is decided here: whether a recording is
//! worth sending, what the request carries, and what the service's answer
//! means.

use vstd::prelude::*;
use vstd::string::*;

verus! {

/// The status with which the service reports success.
pub const ASR_SUCCESS: u32 = 20000000;

/// The answer of the recognition service.
#[derive(Debug, PartialEq, Eq)]
pub struct ASRResult {
    pub task_id: String,
    pub result: String,
    pub status: u32,
    pub message: String,
}

/// One `name=value` pair of the request's query.
#[derive(Debug, PartialEq, Eq)]
pub struct QueryParam {
    pub name: String,
    pub value: String,
}

/// The query of a recognition request for the given application key, as
/// pairs of name and value.
pub open spec fn asr_query_of(app_id: Seq<char>) -> Seq<(Seq<char>, Seq<char>)> {
    seq![
        ("appkey"@, app_id),
        ("format"@, "pcm"@),
        ("sample_rate"@, "16000"@),
        ("enable_punctuation_prediction"@, "false"@),
        ("enable_inverse_text_normalization"@, "true"@),
    ]
}

/// The pairs of a query, each as a pair of views.
pub open spec fn query_view(query: Seq<QueryParam>) -> Seq<(Seq<char>, Seq<char>)> {
    query.map_values(|p: QueryParam| (p.name@, p.value@))
}

/// Whether a recording is sent for recognition: not if it is empty.
pub fn asr_wanted(buffer: &[u8]) -> (r: bool)
    ensures
        r == (buffer@.len() > 0),
{
    buffer.len() > 0
}

/// The query of a recognition request: the application key, and the fixed
/// description of the audio (16 kHz PCM, no punctuation, numbers written
/// as digits).
pub fn asr_query(app_id: &str) -> (query: Vec<QueryParam>)
    ensures
        query_view(query@) == asr_query_of(app_id@),
{
    let mut query: Vec<QueryParam> = Vec::new();
    query.push(QueryParam { name: String::from_str("appkey"), value: String::from_str(app_id) });
    query.push(QueryParam { name: String::from_str("format"), value: String::from_str("pcm") });
    query.push(
        QueryParam { name: String::from_str("sample_rate"), value: String::from_str("16000") },
    );
    query.push(
        QueryParam {
            name: String::from_str("enable_punctuation_prediction"),
            value: String::from_str("false"),
        },
    );
    query.push(
        QueryParam {
            name: String::from_str("enable_inverse_text_normalization"),
            value: String::from_str("true"),
        },
    );
    assert(query_view(query@) =~= asr_query_of(app_id@));
    query
}

/// What the service's answer means: the recognised text if the status is
/// the one for success, the service's message otherwise.
pub fn stop_asr(answer: ASRResult) -> (r: Result<String, String>)
    ensures
        answer.status == ASR_SUCCESS ==> (r matches Ok(text) && text@ == answer.result@),
        answer.status != ASR_SUCCESS ==> (r matches Err(message) && message@
            == answer.message@),
{
    if answer.status == ASR_SUCCESS {
        Ok(answer.result)
    } else {
        Err(answer.message)
    }
}

} // verus!
