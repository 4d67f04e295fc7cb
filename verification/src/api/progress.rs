//! Telling how far the download of an image to a machine has come.

use vstd::prelude::*;

use crate::api::replies::{SseMessageView, sse_message};
use crate::json::{Json, JsonView};
use crate::text::{cut_at_first, decimal, decimal_of, decimals_are_plain, pieces, pieces_of_two};

verus! {

/// What a machine does while an image is sent to it.
pub const TASK_NAME: &'static str = "stream image";

/// The event about the progress of a machine: the machine, the task, how far it has come in
/// percent, and the bytes sent, of how many.
pub open spec fn task_event(
    id: Seq<char>,
    percent: Seq<char>,
    downloaded: u64,
    total: u64,
) -> Seq<char> {
    "task_progress:"@ + id + ":"@ + TASK_NAME@ + ":"@ + percent + ":"@ + decimal(downloaded as nat)
        + ":"@ + decimal(total as nat)
}

/// The event to send about the progress of a machine, whose percentage is written out. There is
/// none where it is not known which machine it is, or where nothing is to be sent at all.
pub fn track_download_progress(
    machine_id: &Option<String>,
    percent: &str,
    bytes_downloaded: u64,
    total_size: u64,
) -> (r: Option<String>)
    ensures
        r.deep_view() == (match machine_id.deep_view() {
            Some(id) if total_size > 0 => Some(
                task_event(id, percent@, bytes_downloaded, total_size),
            ),
            _ => None,
        }),
{
    if total_size == 0 {
        return None;
    }
    match machine_id {
        Some(id) => Some(
            "task_progress:".to_owned().concat(id.as_str()).concat(":").concat(TASK_NAME).concat(
                ":",
            ).concat(percent).concat(":").concat(decimal_of(bytes_downloaded).as_str()).concat(
                ":",
            ).concat(decimal_of(total_size).as_str()),
        ),
        None => None,
    }
}

/// The machine that a download is for: the one that asked for it by name, or else the one at the
/// address of the client.
pub open spec fn downloading_machine(named: Option<Seq<char>>, at_address: Option<Seq<char>>) -> Option<
    Seq<char>,
> {
    match named {
        Some(id) => Some(id),
        None => at_address,
    }
}

/// What is told of a download by a client.
pub open spec fn download_report(
    client_ip: Seq<char>,
    percent: JsonView,
    downloaded: u64,
    total: u64,
    machine: Option<Seq<char>>,
) -> JsonView {
    JsonView::nothing().with("ip"@, JsonView::Text(client_ip)).with("progress"@, percent).with(
        "bytes_downloaded"@,
        JsonView::number(downloaded),
    ).with("total_size"@, JsonView::number(total)).with("file_name"@, JsonView::Text(TASK_NAME@)).with(
        "machine_id"@,
        match machine {
            Some(id) => JsonView::Text(id),
            None => JsonView::Null,
        },
    )
}

/// What is told of a download by a client, unless the client is not known or nothing is to be
/// sent at all.
pub fn report_download(
    client_ip: &Option<String>,
    percent: Json,
    bytes_downloaded: u64,
    total_size: u64,
    machine_id: &Option<String>,
    machine_at_address: &Option<String>,
) -> (r: Option<Json>)
    ensures
        r.deep_view() == (match client_ip.deep_view() {
            Some(ip) if total_size > 0 => Some(
                download_report(
                    ip,
                    percent.deep_view(),
                    bytes_downloaded,
                    total_size,
                    downloading_machine(machine_id.deep_view(), machine_at_address.deep_view()),
                ),
            ),
            _ => None,
        }),
{
    if total_size == 0 {
        return None;
    }
    let ip = match client_ip {
        Some(ip) => ip.as_str(),
        None => { return None; },
    };
    let machine = match machine_id {
        Some(id) => Json::text(id.as_str()),
        None => match machine_at_address {
            Some(id) => Json::text(id.as_str()),
            None => Json::Null,
        },
    };
    Some(
        Json::nothing().with("ip", Json::text(ip)).with("progress", percent).with(
            "bytes_downloaded",
            Json::number(bytes_downloaded),
        ).with("total_size", Json::number(total_size)).with("file_name", Json::text(TASK_NAME)).with(
            "machine_id",
            machine,
        ),
    )
}

/// The event about a download by a client, with the report written out.
pub open spec fn download_event(report: Seq<char>) -> Seq<char> {
    "ip_download_progress"@ + ":"@ + report
}

/// The event about a download by a client, with the report written out.
pub fn announce_download(report: &str) -> (r: String)
    ensures
        r@ == download_event(report@),
{
    "ip_download_progress".to_owned().concat(":").concat(report)
}

/// Browsers get the report of a download as it was written.
pub proof fn report_reaches_browsers(report: Seq<char>)
    ensures
        sse_message(download_event(report)) == (SseMessageView::Raw {
            kind: "ip_download_progress"@,
            text: report,
        }),
{
    reveal_strlit("ip_download_progress");
    assert(!"ip_download_progress"@.contains(':'));
    cut_at_first(download_event(report), "ip_download_progress"@, report);
}

/// What is told of a download, read by its fields, is what was measured: who downloads, how far it has
/// come, how many bytes of how many, and which machine it is.
pub proof fn report_says_what_was_measured(
    client_ip: Seq<char>,
    percent: JsonView,
    downloaded: u64,
    total: u64,
    named: Option<Seq<char>>,
    at_address: Option<Seq<char>>,
)
    ensures
        ({
            let r = download_report(
                client_ip,
                percent,
                downloaded,
                total,
                downloading_machine(named, at_address),
            );
            &&& r.text_at("ip"@) == Some(client_ip)
            &&& r.field("progress"@) == Some(percent)
            &&& r.unsigned_at("bytes_downloaded"@) == Some(downloaded)
            &&& r.unsigned_at("total_size"@) == Some(total)
            &&& r.text_at("file_name"@) == Some("stream image"@)
            &&& named matches Some(id) ==> r.text_at("machine_id"@) == Some(id)
            &&& named is None ==> (at_address matches Some(id) ==> r.text_at("machine_id"@) == Some(
                id,
            ))
            &&& named is None && at_address is None ==> r.field("machine_id"@) == Some(
                JsonView::Null,
            )
        }),
{
    reveal_strlit("ip");
    reveal_strlit("progress");
    reveal_strlit("bytes_downloaded");
    reveal_strlit("total_size");
    reveal_strlit("file_name");
    reveal_strlit("machine_id");
    assert("ip"@.len() != "progress"@.len());
    assert("ip"@.len() != "bytes_downloaded"@.len());
    assert("progress"@.len() != "bytes_downloaded"@.len());
    assert("ip"@.len() != "total_size"@.len());
    assert("progress"@.len() != "total_size"@.len());
    assert("bytes_downloaded"@.len() != "total_size"@.len());
    assert("ip"@.len() != "file_name"@.len());
    assert("progress"@.len() != "file_name"@.len());
    assert("bytes_downloaded"@.len() != "file_name"@.len());
    assert("total_size"@.len() != "file_name"@.len());
    assert("ip"@.len() != "machine_id"@.len());
    assert("progress"@.len() != "machine_id"@.len());
    assert("bytes_downloaded"@.len() != "machine_id"@.len());
    assert("total_size"@[0] != "machine_id"@[0]);
    assert("file_name"@.len() != "machine_id"@.len());
    reveal_with_fuel(crate::json::field_place, 8);
}

/// The event about the progress of a machine, taken apart at its colons, names the machine, the task,
/// how far it has come, and how many bytes of how many were sent.
pub proof fn progress_event_is_taken_apart(
    id: Seq<char>,
    percent: Seq<char>,
    downloaded: u64,
    total: u64,
)
    requires
        !id.contains(':'),
        !percent.contains(':'),
    ensures
        pieces(task_event(id, percent, downloaded, total), ':') == seq![
            "task_progress"@,
            id,
            "stream image"@,
            percent,
            decimal(downloaded as nat),
            decimal(total as nat),
        ],
{
    reveal_strlit("task_progress:");
    reveal_strlit("task_progress");
    reveal_strlit("stream image");
    reveal_strlit(":");
    let c = seq![':'];
    assert(":"@ =~= c);
    assert("task_progress:"@ =~= "task_progress"@ + c);
    let a = "task_progress"@;
    let t = "stream image"@;
    let d = decimal(downloaded as nat);
    let n = decimal(total as nat);
    assert(!a.contains(':'));
    assert(!t.contains(':'));
    decimals_are_plain(downloaded as nat, ':');
    decimals_are_plain(total as nat, ':');
    let e = task_event(id, percent, downloaded, total);
    assert(e =~= a + c + (id + c + (t + c + (percent + c + (d + c + n)))));
    pieces_of_two(n, ':', Seq::empty());
    pieces_of_two(d, ':', n);
    pieces_of_two(percent, ':', d + c + n);
    pieces_of_two(t, ':', percent + c + (d + c + n));
    pieces_of_two(id, ':', t + c + (percent + c + (d + c + n)));
    pieces_of_two(a, ':', id + c + (t + c + (percent + c + (d + c + n))));
    assert(pieces(e, ':') =~= seq![a, id, t, percent, d, n]);
}

} // verus!
