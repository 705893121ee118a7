//! The upload sink: what is sent for a reading, and what follows from the
//! way an upload ends.

use vstd::prelude::*;
use vstd::string::StringExecFns;
use crate::calendar::{date_text, digit_char, time_text, Timestamp};
use crate::errors::Error;

verus! {

/// The collection endpoint that every reading goes to.
pub const ENDPOINT: &'static str = "http://pvoutput.org/service/r2/addstatus.jsp";

/// The HTTP method of an upload.
pub const METHOD: &'static str = "POST";

/// The header that carries the API key.
pub const API_KEY_HEADER: &'static str = "X-Pvoutput-Apikey";

/// The header that carries the system id.
pub const SYSTEM_ID_HEADER: &'static str = "X-Pvoutput-SystemId";

/// The header that names the body's encoding.
pub const CONTENT_TYPE_HEADER: &'static str = "Content-Type";

/// The body's encoding.
pub const FORM_URLENCODED: &'static str = "application/x-www-form-urlencoded";

/// The status with which the endpoint accepts a reading.
pub const STATUS_OK: u16 = 200;

/// Who uploads: attached to every request.
#[derive(Clone, Debug, PartialEq, Eq)]
pub struct UploadCredentials {
    pub system_id: String,
    pub api_key: String,
}

/// One request header.
#[derive(Clone, Debug, PartialEq, Eq)]
pub struct Header {
    pub name: String,
    pub value: String,
}

/// An upload as plain data, for the caller's HTTP client to send.
#[derive(Clone, Debug, PartialEq, Eq)]
pub struct UploadRequest {
    pub method: String,
    pub url: String,
    pub headers: Vec<Header>,
    pub body: String,
}

/// `n` in decimal, without leading zeros.
pub open spec fn decimal_text(n: nat) -> Seq<char>
    decreases n,
{
    if n < 10 {
        seq![digit_char(n as int)]
    } else {
        decimal_text(n / 10) + seq![digit_char((n % 10) as int)]
    }
}

/// The form body of an upload: date, time, energy in watt-hours, voltage.
pub open spec fn body_text(
    year: int,
    month: int,
    day: int,
    hour: int,
    minute: int,
    energy_wh: nat,
    voltage: Seq<char>,
) -> Seq<char> {
    seq!['d', '='] + date_text(year, month, day) + seq!['&', 't', '='] + time_text(hour, minute)
        + seq!['&', 'v', '1', '='] + decimal_text(energy_wh) + seq!['&', 'v', '6', '='] + voltage
}

fn digit_str(d: u32) -> (text: &'static str)
    requires
        d < 10,
    ensures
        text@ == seq![digit_char(d as int)],
{
    proof {
        reveal_strlit("0");
        reveal_strlit("1");
        reveal_strlit("2");
        reveal_strlit("3");
        reveal_strlit("4");
        reveal_strlit("5");
        reveal_strlit("6");
        reveal_strlit("7");
        reveal_strlit("8");
        reveal_strlit("9");
    }
    let text = if d == 0 {
        "0"
    } else if d == 1 {
        "1"
    } else if d == 2 {
        "2"
    } else if d == 3 {
        "3"
    } else if d == 4 {
        "4"
    } else if d == 5 {
        "5"
    } else if d == 6 {
        "6"
    } else if d == 7 {
        "7"
    } else if d == 8 {
        "8"
    } else {
        "9"
    };
    assert(text@ =~= seq![digit_char(d as int)]);
    text
}

/// Appends `n` in decimal to `text`.
pub fn push_decimal(text: &mut String, n: u32)
    ensures
        final(text)@ == old(text)@ + decimal_text(n as nat),
    decreases n,
{
    if n >= 10 {
        push_decimal(text, n / 10);
    }
    text.append(digit_str(n % 10));
    proof {
        if n >= 10 {
            assert(final(text)@ =~= old(text)@ + decimal_text(n as nat));
        }
    }
}

/// The form body for a reading taken at `stamp`: `d=YYYYMMDD&t=HH:MM`,
/// then `&v1=` with the energy in decimal and `&v6=` with the voltage as the
/// caller has written it.
pub fn status_body(stamp: &Timestamp, energy_wh: u32, voltage: &str) -> (body: String)
    ensures
        body@ == body_text(
            stamp.year(),
            stamp.month(),
            stamp.day(),
            stamp.hour(),
            stamp.minute(),
            energy_wh as nat,
            voltage@,
        ),
{
    proof {
        reveal_strlit("d=");
        reveal_strlit("&t=");
        reveal_strlit("&v1=");
        reveal_strlit("&v6=");
    }
    let mut body = String::from_str("d=");
    assert(body@ =~= seq!['d', '=']);
    let date = stamp.date_string();
    body.append(date.as_str());
    body.append("&t=");
    let time = stamp.time_string();
    body.append(time.as_str());
    body.append("&v1=");
    let ghost head = body@;
    assert(head =~= seq!['d', '='] + date_text(stamp.year(), stamp.month(), stamp.day()) + seq![
        '&',
        't',
        '=',
    ] + time_text(stamp.hour(), stamp.minute()) + seq!['&', 'v', '1', '=']);
    push_decimal(&mut body, energy_wh);
    body.append("&v6=");
    body.append(voltage);
    assert(body@ =~= head + decimal_text(energy_wh as nat) + seq!['&', 'v', '6', '='] + voltage@);
    body
}

/// Whether `request` is the upload of the given reading by the given
/// uploader: a POST to the collection endpoint, with the API key, the system
/// id and the body's encoding as headers, in this order, and the form body.
pub open spec fn is_status_request(
    request: UploadRequest,
    credentials: UploadCredentials,
    stamp: Timestamp,
    energy_wh: nat,
    voltage: Seq<char>,
) -> bool {
    &&& request.method@ == METHOD@
    &&& request.url@ == ENDPOINT@
    &&& request.headers@.len() == 3
    &&& request.headers@[0].name@ == API_KEY_HEADER@
    &&& request.headers@[0].value@ == credentials.api_key@
    &&& request.headers@[1].name@ == SYSTEM_ID_HEADER@
    &&& request.headers@[1].value@ == credentials.system_id@
    &&& request.headers@[2].name@ == CONTENT_TYPE_HEADER@
    &&& request.headers@[2].value@ == FORM_URLENCODED@
    &&& request.body@ == body_text(
        stamp.year(),
        stamp.month(),
        stamp.day(),
        stamp.hour(),
        stamp.minute(),
        energy_wh,
        voltage,
    )
}

/// The upload of one reading, taken at `stamp`, with the voltage as the
/// caller has written it.
pub fn status_request(
    credentials: &UploadCredentials,
    stamp: &Timestamp,
    energy_wh: u32,
    voltage: &str,
) -> (request: UploadRequest)
    ensures
        is_status_request(request, *credentials, *stamp, energy_wh as nat, voltage@),
{
    let mut headers: Vec<Header> = Vec::new();
    headers.push(
        Header { name: String::from_str(API_KEY_HEADER), value: credentials.api_key.clone() },
    );
    headers.push(
        Header { name: String::from_str(SYSTEM_ID_HEADER), value: credentials.system_id.clone() },
    );
    headers.push(
        Header {
            name: String::from_str(CONTENT_TYPE_HEADER),
            value: String::from_str(FORM_URLENCODED),
        },
    );
    UploadRequest {
        method: String::from_str(METHOD),
        url: String::from_str(ENDPOINT),
        headers,
        body: status_body(stamp, energy_wh, voltage),
    }
}

/// How an upload ended, as the caller's HTTP client reports it.
#[derive(Clone, Copy, Debug, PartialEq, Eq, Structural)]
pub enum UploadOutcome {
    /// The endpoint answered with this status.
    Status(u16),
    /// The request could not be carried out: no answer came.
    TransportFailed,
}

/// What became of a reading whose upload was answered.
#[derive(Clone, Copy, Debug, PartialEq, Eq, Structural)]
pub enum Uploaded {
    /// The endpoint took the reading.
    Accepted,
    /// The endpoint refused the reading with this status. The reading is
    /// lost, and the sink goes on.
    Rejected { status: u16 },
}

/// What follows from the way an upload ended: a refusal by the endpoint is a
/// warning, a failure of the transport ends the session.
pub open spec fn settle<E>(outcome: UploadOutcome) -> Result<Uploaded, Error<E>> {
    match outcome {
        UploadOutcome::Status(status) => if status == STATUS_OK {
            Ok(Uploaded::Accepted)
        } else {
            Ok(Uploaded::Rejected { status })
        },
        UploadOutcome::TransportFailed => Err(Error::UploadTransportFailed),
    }
}

/// Decides how the sink goes on after an upload.
pub fn upload_request<E>(outcome: UploadOutcome) -> (settled: Result<Uploaded, Error<E>>)
    ensures
        settled == settle::<E>(outcome),
{
    match outcome {
        UploadOutcome::Status(status) => {
            if status == STATUS_OK {
                Ok(Uploaded::Accepted)
            } else {
                Ok(Uploaded::Rejected { status })
            }
        },
        UploadOutcome::TransportFailed => Err(Error::UploadTransportFailed),
    }
}

/// The number of upload calls that the sink makes for a queue of readings,
/// one after the other, where `outcomes[k]` is how the call for reading `k`
/// would end: it goes on after every answer and stops after a call that
/// fails.
pub open spec fn uploads_made(outcomes: Seq<UploadOutcome>) -> nat
    decreases outcomes.len(),
{
    if outcomes.len() == 0 {
        0
    } else if outcomes.first() is TransportFailed {
        1
    } else {
        1 + uploads_made(outcomes.drop_first())
    }
}

/// What the sink does with a queue of readings, one after the other, where
/// `outcomes[k]` is how the call for reading `k` would end: the readings
/// that it calls for, in the order of the calls, and how it ends.
pub open spec fn drained<R, E>(readings: Seq<R>, outcomes: Seq<UploadOutcome>) -> (
    Seq<R>,
    Result<(), Error<E>>,
)
    decreases readings.len(),
{
    if readings.len() == 0 {
        (Seq::empty(), Ok(()))
    } else {
        match settle::<E>(outcomes.first()) {
            Err(e) => (seq![readings.first()], Err(e)),
            Ok(_) => {
                let (calls, end) = drained::<R, E>(readings.drop_first(), outcomes.drop_first());
                (seq![readings.first()] + calls, end)
            },
        }
    }
}

/// The sink calls for every reading up to the first call that fails: for
/// none after a transport failure, and for all where no transport fails,
/// whatever status the endpoint answers with.
pub proof fn lemma_uploads_stop_at_transport_failure(outcomes: Seq<UploadOutcome>)
    ensures
        uploads_made(outcomes) <= outcomes.len(),
        forall|k: int| 0 <= k < uploads_made(outcomes) - 1 ==> (#[trigger] outcomes[k]) is Status,
        uploads_made(outcomes) < outcomes.len() ==> uploads_made(outcomes) > 0
            && outcomes[uploads_made(outcomes) - 1] is TransportFailed,
        (forall|k: int| 0 <= k < outcomes.len() ==> (#[trigger] outcomes[k]) is Status)
            ==> uploads_made(outcomes) == outcomes.len(),
        forall|k: int|
            0 <= k < outcomes.len() && (#[trigger] outcomes[k]) is TransportFailed
                ==> uploads_made(outcomes) <= k + 1,
    decreases outcomes.len(),
{
    if outcomes.len() > 0 && outcomes.first() is Status {
        let rest = outcomes.drop_first();
        let made = uploads_made(outcomes);
        lemma_uploads_stop_at_transport_failure(rest);
        assert forall|k: int| 0 <= k < made - 1 implies (#[trigger] outcomes[k]) is Status by {
            if k > 0 {
                assert(outcomes[k] == rest[k - 1]);
            }
        }
        assert forall|k: int|
            0 <= k < outcomes.len() && (#[trigger] outcomes[k]) is TransportFailed implies made <= k
            + 1 by {
            assert(outcomes[k] == rest[k - 1]);
        }
        if made < outcomes.len() {
            assert(outcomes[made - 1] == rest[uploads_made(rest) - 1]);
        }
        if forall|k: int| 0 <= k < outcomes.len() ==> (#[trigger] outcomes[k]) is Status {
            assert forall|k: int| 0 <= k < rest.len() implies (#[trigger] rest[k]) is Status by {
                assert(rest[k] == outcomes[k + 1]);
            }
        }
    }
}

/// The sink makes its calls in the order of the queue, one for each reading
/// up to the first call that fails, and ends with the transport failure if
/// one of these calls met one.
pub proof fn lemma_uploads_keep_the_order<R, E>(readings: Seq<R>, outcomes: Seq<UploadOutcome>)
    requires
        outcomes.len() == readings.len(),
    ensures
        drained::<R, E>(readings, outcomes).0 == readings.take(uploads_made(outcomes) as int),
        drained::<R, E>(readings, outcomes).1 == if uploads_made(outcomes) > 0 && outcomes[uploads_made(
            outcomes,
        ) - 1] is TransportFailed {
            Err::<(), Error<E>>(Error::UploadTransportFailed)
        } else {
            Ok::<(), Error<E>>(())
        },
    decreases readings.len(),
{
    lemma_uploads_stop_at_transport_failure(outcomes);
    if readings.len() == 0 {
        assert(readings.take(0) =~= Seq::<R>::empty());
    } else if outcomes.first() is TransportFailed {
        assert(readings.take(1) =~= seq![readings.first()]);
    } else {
        let rest = outcomes.drop_first();
        lemma_uploads_keep_the_order::<R, E>(readings.drop_first(), rest);
        lemma_uploads_stop_at_transport_failure(rest);
        assert(readings.take(uploads_made(outcomes) as int) =~= seq![readings.first()]
            + readings.drop_first().take(uploads_made(rest) as int));
        if uploads_made(rest) > 0 {
            assert(outcomes[uploads_made(outcomes) - 1] == rest[uploads_made(rest) - 1]);
        }
    }
}

} // verus!
