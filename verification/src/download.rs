//! Download tasks: validation of what a client asks for, the paths under
//! which packages are kept, and the making of a new task.

use crate::security::{
    all_safe, check_download_url, download_url_fault, fault_view, fetchable, parts_view,
    sanitize_path_segment, url_parts_of, valid_segment, validate_download_url,
    validate_path_segment, UrlParts,
};
use crate::security;
use crate::text;
use crate::types::{CreateDownloadRequest, DownloadTask, TaskStatus};
use vstd::prelude::*;
use vstd::string::StringExecFns;

verus! {

/// Why a request with the given URL parts is refused, if it is: the checks
/// are made in this order, and the first that fails gives the message.
pub open spec fn request_fault(
    req: &CreateDownloadRequest,
    parts: Option<(Seq<char>, Option<Seq<char>>)>,
) -> Option<Seq<char>> {
    if req.sinfs@.len() == 0 {
        Some("Missing required fields: software, accountHash, downloadURL, sinfs"@)
    } else if download_url_fault(parts) is Some {
        download_url_fault(parts)
    } else if !valid_segment(req.account_hash@) {
        Some(segment_fault(req.account_hash@, "accountHash"@))
    } else if !valid_segment(req.software.bundle_id@) {
        Some(segment_fault(req.software.bundle_id@, "bundleID"@))
    } else if !valid_segment(req.software.version@) {
        Some(segment_fault(req.software.version@, "version"@))
    } else {
        None
    }
}

/// The message for the value `value`, named `label`, that is no path
/// segment.
pub open spec fn segment_fault(value: Seq<char>, label: Seq<char>) -> Seq<char> {
    if value.len() == 0 || !all_safe(value) {
        security::charset_message(label)
    } else {
        security::dot_message(label)
    }
}

/// The request may be served: it has a signing blob, its URL may be fetched,
/// and its account hash, bundle identifier and version are path segments.
pub open spec fn request_valid(
    req: &CreateDownloadRequest,
    parts: Option<(Seq<char>, Option<Seq<char>>)>,
) -> bool {
    req.sinfs@.len() > 0 && fetchable(parts) && valid_segment(req.account_hash@) && valid_segment(
        req.software.bundle_id@,
    ) && valid_segment(req.software.version@)
}

/// Validates a request whose URL has the given parts; `None` stands for a
/// URL that could not be read.
pub fn check_create_request(req: &CreateDownloadRequest, parts: &Option<UrlParts>) -> (r: Result<
    (),
    String,
>)
    ensures
        fault_view(r) == request_fault(req, parts_view(*parts)),
        r is Ok <==> request_valid(req, parts_view(*parts)),
{
    if req.sinfs.len() == 0 {
        return Err(
            String::from_str("Missing required fields: software, accountHash, downloadURL, sinfs"),
        );
    }
    match check_download_url(parts) {
        Err(message) => {
            return Err(message);
        },
        Ok(_) => {},
    }
    check_segments(req)
}

/// Validates the account hash, the bundle identifier and the version.
fn check_segments(req: &CreateDownloadRequest) -> (r: Result<(), String>)
    ensures
        r is Ok <==> valid_segment(req.account_hash@) && valid_segment(req.software.bundle_id@)
            && valid_segment(req.software.version@),
        r matches Err(message) ==> message@ == (if !valid_segment(req.account_hash@) {
            segment_fault(req.account_hash@, "accountHash"@)
        } else if !valid_segment(req.software.bundle_id@) {
            segment_fault(req.software.bundle_id@, "bundleID"@)
        } else {
            segment_fault(req.software.version@, "version"@)
        }),
{
    match validate_path_segment(req.account_hash.as_str(), "accountHash") {
        Err(message) => {
            return Err(message);
        },
        Ok(_) => {},
    }
    match validate_path_segment(req.software.bundle_id.as_str(), "bundleID") {
        Err(message) => {
            return Err(message);
        },
        Ok(_) => {},
    }
    validate_path_segment(req.software.version.as_str(), "version")
}

/// Validates what a client sends to have a task created, before anything is
/// fetched or stored.
pub fn validate_create_request(req: &CreateDownloadRequest) -> (r: Result<(), String>)
    ensures
        fault_view(r) == request_fault(req, url_parts_of(req.download_url@)),
        r is Ok <==> request_valid(req, url_parts_of(req.download_url@)),
{
    if req.sinfs.len() == 0 {
        return Err(
            String::from_str("Missing required fields: software, accountHash, downloadURL, sinfs"),
        );
    }
    match validate_download_url(req.download_url.as_str()) {
        Err(message) => {
            return Err(message);
        },
        Ok(_) => {},
    }
    check_segments(req)
}

/// The directory of a package: the four parts joined by `/`.
pub open spec fn task_dir(
    packages_dir: Seq<char>,
    account_hash: Seq<char>,
    bundle_id: Seq<char>,
    version: Seq<char>,
) -> Seq<char> {
    packages_dir + "/"@ + account_hash + "/"@ + bundle_id + "/"@ + version
}

/// `value` can be made a path segment by cleaning.
pub open spec fn cleanable(value: Seq<char>) -> bool {
    security::sanitized(value) is Some
}

/// The directory under `packages_dir` in which a package of the account, the
/// bundle and the version is kept. The three are cleaned first; fails where
/// one of them cannot be made a path segment.
pub fn build_task_dir(packages_dir: &str, account_hash: &str, bundle_id: &str, version: &str) -> (r:
    Result<String, String>)
    ensures
        r is Ok <==> cleanable(account_hash@) && cleanable(bundle_id@) && cleanable(version@),
        r matches Ok(dir) ==> dir@ == task_dir(
            packages_dir@,
            security::cleaned(account_hash@),
            security::cleaned(bundle_id@),
            security::cleaned(version@),
        ),
        r matches Err(message) ==> message@ == "Invalid path segment"@,
{
    let safe_hash = match sanitize_path_segment(account_hash) {
        Ok(segment) => segment,
        Err(message) => {
            return Err(message);
        },
    };
    let safe_bundle = match sanitize_path_segment(bundle_id) {
        Ok(segment) => segment,
        Err(message) => {
            return Err(message);
        },
    };
    let safe_version = match sanitize_path_segment(version) {
        Ok(segment) => segment,
        Err(message) => {
            return Err(message);
        },
    };
    let mut dir = String::from_str(packages_dir);
    dir.append("/");
    dir.append(safe_hash.as_str());
    dir.append("/");
    dir.append(safe_bundle.as_str());
    dir.append("/");
    dir.append(safe_version.as_str());
    Ok(dir)
}

/// The path of the package of the task `task_id` in the directory `dir`.
pub fn build_ipa_path(dir: &str, task_id: &str) -> (path: String)
    ensures
        path@ == dir@ + "/"@ + task_id@ + ".ipa"@,
{
    let mut path = String::from_str(dir);
    path.append("/");
    path.append(task_id);
    path.append(".ipa");
    path
}

/// `hash` is at least eight characters long and holds letters, digits, dots,
/// underscores and dashes only.
pub open spec fn valid_account_hash(hash: Seq<char>) -> bool {
    hash.len() >= 8 && all_safe(hash)
}

/// Whether `hash` has the form of an account hash.
pub fn validate_account_hash(hash: &str) -> (b: bool)
    ensures
        b == valid_account_hash(hash@),
{
    let v = text::chars_of(hash);
    if v.len() < 8 {
        return false;
    }
    let mut i: usize = 0;
    while i < v.len()
        invariant
            i <= v.len(),
            v@ == hash@,
            forall|k: int| 0 <= k < i ==> security::safe_segment_char(#[trigger] v@[k]),
        decreases v.len() - i,
    {
        if !security::is_safe_segment_char(v[i]) {
            return false;
        }
        i += 1;
    }
    true
}

/// `year` is a leap year of the Gregorian calendar.
pub open spec fn leap(year: int) -> bool {
    (year % 4 == 0 && year % 100 != 0) || year % 400 == 0
}

/// Whether `year` is a leap year.
#[verifier::when_used_as_spec(leap_u64)]
pub fn is_leap(year: u64) -> (b: bool)
    ensures
        b == leap(year as int),
{
    (year % 4 == 0 && year % 100 != 0) || year % 400 == 0
}

/// Whether the year is a leap year.
pub open spec fn leap_u64(year: u64) -> bool {
    leap(year as int)
}

/// The number of days of `year`.
pub open spec fn year_days(year: int) -> int {
    if leap(year) {
        366
    } else {
        365
    }
}

/// The number of days of the month `month` (0 for January) of `year`.
pub open spec fn month_days(year: int, month: int) -> int {
    if month == 1 {
        if leap(year) {
            29
        } else {
            28
        }
    } else if month == 3 || month == 5 || month == 8 || month == 10 {
        30
    } else {
        31
    }
}

/// The number of days from the first of January 1970 to the first of
/// January of `year`.
pub open spec fn days_before_year(year: int) -> int
    decreases year - 1970,
{
    if year <= 1970 {
        0
    } else {
        days_before_year(year - 1) + year_days(year - 1)
    }
}

/// The number of days of `year` before its month `month` (0 for January).
pub open spec fn days_before_month(year: int, month: int) -> int
    decreases month,
{
    if month <= 0 {
        0
    } else {
        days_before_month(year, month - 1) + month_days(year, month - 1)
    }
}

/// Day `day` (0 for the first) of month `month` (0 for January) of `year`
/// is the day number `days`, counted from the first of January 1970.
pub open spec fn is_date_of(days: int, year: int, month: int, day: int) -> bool {
    &&& year >= 1970
    &&& 0 <= month < 12
    &&& 0 <= day < month_days(year, month)
    &&& days == days_before_year(year) + days_before_month(year, month) + day
}

/// The days of the months before `month` stay within the year, and rise
/// with the month.
proof fn lemma_months_in_year(year: int, month: int)
    requires
        0 <= month < 12,
    ensures
        0 <= days_before_month(year, month),
        days_before_month(year, month) + month_days(year, month) <= year_days(year),
        forall|later: int|
            month < later < 12 ==> days_before_month(year, month) + month_days(year, month)
                <= #[trigger] days_before_month(year, later),
{
    reveal_with_fuel(days_before_month, 13);
}

/// The first days of the years rise by a year's days at least.
proof fn lemma_years_rise(earlier: int, later: int)
    requires
        1970 <= earlier < later,
    ensures
        days_before_year(earlier) + year_days(earlier) <= days_before_year(later),
        0 <= days_before_year(earlier),
    decreases later - earlier,
{
    if earlier + 1 < later {
        lemma_years_rise(earlier, later - 1);
    }
    lemma_year_start(earlier);
}

/// No year begins before 1970 does.
proof fn lemma_year_start(year: int)
    requires
        year >= 1970,
    ensures
        0 <= days_before_year(year),
    decreases year - 1970,
{
    if year > 1970 {
        lemma_year_start(year - 1);
    }
}

/// A day has one date.
pub proof fn lemma_date_unique(
    days: int,
    year: int,
    month: int,
    day: int,
    year2: int,
    month2: int,
    day2: int,
)
    requires
        is_date_of(days, year, month, day),
        is_date_of(days, year2, month2, day2),
    ensures
        year == year2,
        month == month2,
        day == day2,
{
    lemma_months_in_year(year, month);
    lemma_months_in_year(year2, month2);
    if year < year2 {
        lemma_years_rise(year, year2);
    }
    if year2 < year {
        lemma_years_rise(year2, year);
    }
}

/// The date of the day number `days`: year, month (0 for January) and day
/// of the month (0 for the first).
pub fn date_of_day(days: u64) -> (date: (u64, u64, u64))
    ensures
        is_date_of(days as int, date.0 as int, date.1 as int, date.2 as int),
{
    let mut rest: u64 = days;
    let mut year: u64 = 1970;
    loop
        invariant
            year >= 1970,
            rest <= days,
            (year - 1970) * 365 <= days - rest,
            days == days_before_year(year as int) + rest,
        ensures
            year >= 1970,
            rest <= days,
            days == days_before_year(year as int) + rest,
            rest < year_days(year as int),
        decreases rest,
    {
        let days_in_year: u64 = if is_leap(year) {
            366
        } else {
            365
        };
        if rest < days_in_year {
            break ;
        }
        rest -= days_in_year;
        year += 1;
    }
    let mut month: u64 = 0;
    while month < 11 && rest >= days_in_month(year, month)
        invariant
            month <= 11,
            year >= 1970,
            days == days_before_year(year as int) + days_before_month(year as int, month as int)
                + rest,
            days_before_month(year as int, month as int) + rest < year_days(year as int),
        decreases 11 - month,
    {
        rest -= days_in_month(year, month);
        month += 1;
    }
    proof {
        if month == 11 {
            lemma_days_before_december(year as int);
        }
    }
    (year, month, rest)
}

/// Eleven months hold all days of a year but the 31 of December.
proof fn lemma_days_before_december(year: int)
    ensures
        days_before_month(year, 11) == year_days(year) - 31,
{
    reveal_with_fuel(days_before_month, 12);
}

/// The number of days of the month (0 for January) of the year.
fn days_in_month(year: u64, month: u64) -> (n: u64)
    ensures
        n == month_days(year as int, month as int),
        28 <= n <= 31,
{
    if month == 1 {
        if is_leap(year) {
            29
        } else {
            28
        }
    } else if month == 3 || month == 5 || month == 8 || month == 10 {
        30
    } else {
        31
    }
}

/// The text of the date and the time of day: `YYYY-MM-DDTHH:MM:SSZ`, the
/// year with four digits at least.
pub open spec fn timestamp_text(year: int, month: int, day: int, second_of_day: int) -> Seq<char> {
    text::decimal_padded(year as nat, 4) + "-"@ + text::decimal_padded((month + 1) as nat, 2)
        + "-"@ + text::decimal_padded((day + 1) as nat, 2) + "T"@ + text::decimal_padded(
        (second_of_day / 3600) as nat,
        2,
    ) + ":"@ + text::decimal_padded(((second_of_day % 3600) / 60) as nat, 2) + ":"@
        + text::decimal_padded((second_of_day % 60) as nat, 2) + "Z"@
}

/// The date of the day number `days`, counted from the first of January
/// 1970: year, month (0 for January) and day of the month (0 for the first).
pub open spec fn date_of(days: int) -> (int, int, int) {
    choose|date: (int, int, int)| is_date_of(days, date.0, date.1, date.2)
}

/// The text of the time `secs` seconds after the beginning of 1970, in
/// UTC: `YYYY-MM-DDTHH:MM:SSZ`.
pub open spec fn iso_timestamp(secs: int) -> Seq<char> {
    let date = date_of(secs / 86400);
    timestamp_text(date.0, date.1, date.2, secs % 86400)
}

/// The date of a day is the one date that it has.
pub proof fn lemma_date_of(days: int, year: int, month: int, day: int)
    requires
        is_date_of(days, year, month, day),
    ensures
        date_of(days) == (year, month, day),
{
    let given = (year, month, day);
    assert(is_date_of(days, given.0, given.1, given.2));
    let date = date_of(days);
    lemma_date_unique(days, year, month, day, date.0, date.1, date.2);
}

/// The time `secs` seconds after the beginning of 1970, in ISO 8601 form
/// and UTC.
pub fn format_unix_timestamp(secs: u64) -> (r: String)
    ensures
        r@ == iso_timestamp(secs as int),
{
    let days = secs / 86400;
    let day_secs = secs % 86400;
    let hours = day_secs / 3600;
    let minutes = (day_secs % 3600) / 60;
    let seconds = day_secs % 60;
    let (year, month, day) = date_of_day(days);
    let mut out: Vec<char> = Vec::new();
    text::push_decimal(&mut out, year, 4);
    text::push_str(&mut out, "-");
    text::push_decimal(&mut out, month + 1, 2);
    text::push_str(&mut out, "-");
    text::push_decimal(&mut out, day + 1, 2);
    text::push_str(&mut out, "T");
    text::push_decimal(&mut out, hours, 2);
    text::push_str(&mut out, ":");
    text::push_decimal(&mut out, minutes, 2);
    text::push_str(&mut out, ":");
    text::push_decimal(&mut out, seconds, 2);
    text::push_str(&mut out, "Z");
    assert(out@ =~= timestamp_text(year as int, month as int, day as int, day_secs as int));
    proof {
        lemma_date_of(secs as int / 86400, year as int, month as int, day as int);
    }
    text::string_of(&out)
}

/// Calls `uuid::Uuid::new_v4` and formats the identifier, which gives the
/// hyphenated form of 36 characters. The identifier is random.
#[verifier::external_body]
fn random_uuid() -> (id: String)
    ensures
        id@.len() == 36,
{
    uuid::Uuid::new_v4().to_string()
}

/// `task` is the task that is made of `req`: pending, at zero percent, with
/// the request's contents, and with neither error nor package.
pub open spec fn fresh_task(task: DownloadTask, req: CreateDownloadRequest) -> bool {
    &&& task.software == req.software
    &&& task.account_hash == req.account_hash
    &&& task.download_url == req.download_url
    &&& task.sinfs == req.sinfs
    &&& task.itunes_metadata == req.itunes_metadata
    &&& task.status == TaskStatus::Pending
    &&& task.progress == 0
    &&& task.speed@ == "0 B/s"@
    &&& task.error is None
    &&& task.file_path is None
    &&& task.well_formed()
}

/// The task that is made of `req` under the identifier `id` at the time
/// `created_at`.
pub fn new_task_with(req: CreateDownloadRequest, id: String, created_at: String) -> (task:
    DownloadTask)
    ensures
        task.id == id,
        task.created_at == created_at,
        fresh_task(task, req),
{
    DownloadTask {
        id,
        software: req.software,
        account_hash: req.account_hash,
        download_url: req.download_url,
        sinfs: req.sinfs,
        itunes_metadata: req.itunes_metadata,
        status: TaskStatus::Pending,
        progress: 0,
        speed: String::from_str("0 B/s"),
        error: None,
        file_path: None,
        created_at,
    }
}

/// Makes the task for a request at the time `now_secs`, in seconds since
/// the beginning of 1970; nothing is fetched yet. The identifier is random.
pub fn new_task(req: CreateDownloadRequest, now_secs: u64) -> (task: DownloadTask)
    ensures
        task.id@.len() == 36,
        task.created_at@ == iso_timestamp(now_secs as int),
        fresh_task(task, req),
{
    let id = random_uuid();
    let created_at = format_unix_timestamp(now_secs);
    new_task_with(req, id, created_at)
}

} // verus!
