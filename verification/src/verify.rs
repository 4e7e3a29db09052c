//! Checks of an index against expectations given on the command line: which
//! questions are put to the index, which checks pass, the report lines and the
//! exit code.
use vstd::prelude::*;
use crate::config::exit_code;
use crate::idxer::{normalize_drive_root, normalized_drive_root};
use crate::text::{debug_option, push_debug_option, push_signed_decimal, signed_decimal};

verus! {

/// What a verification expects of the index.
pub struct VerifyOpts {
    pub volume: Option<String>,
    pub expect_files_min: Option<i64>,
    pub expect_files_max: Option<i64>,
    pub expect_hashed_pct: Option<i64>,
    pub expect_dup_groups: Option<i64>,
    pub expect_dup_members_min: Option<i64>,
    pub expect_usn: bool,
    pub integrity: bool,
}

/// The outcome of one check.
pub struct Check {
    pub name: &'static str,
    pub code: i32,
    pub passed: bool,
    pub detail: String,
}

/// A check as a mathematical value.
pub struct CheckSpec {
    pub name: Seq<char>,
    pub code: i32,
    pub passed: bool,
    pub detail: Seq<char>,
}

impl View for Check {
    type V = CheckSpec;

    open spec fn view(&self) -> CheckSpec {
        CheckSpec { name: self.name@, code: self.code, passed: self.passed, detail: self.detail@ }
    }
}

impl Check {
    pub fn pass(name: &'static str, code: i32, detail: String) -> (r: Check)
        ensures
            r.name == name,
            r.code == code,
            r.passed,
            r.detail == detail,
    {
        Check { name, code, passed: true, detail }
    }

    pub fn fail(name: &'static str, code: i32, detail: String) -> (r: Check)
        ensures
            r.name == name,
            r.code == code,
            !r.passed,
            r.detail == detail,
    {
        Check { name, code, passed: false, detail }
    }
}

/// The answers the index gave to the questions of a verification. An error
/// is the text of the failure. Answers to questions that were not asked are
/// ignored (see [`unasked_answers_are_ignored`]).
pub struct VerifyAnswers {
    pub integrity: Result<bool, String>,
    pub volume_id: Result<Option<i64>, String>,
    pub alive_files: Result<i64, String>,
    pub hashed_files: Result<i64, String>,
    pub dup_groups: Result<i64, String>,
    pub max_dup_members: Result<i64, String>,
    pub last_usn: Result<Option<i64>, String>,
}

/// Which questions to put to the index.
pub struct VerifyPlan {
    /// Run the integrity check.
    pub integrity: bool,
    /// Look up this volume (already normalised).
    pub volume: Option<String>,
    /// Count the live files (of the volume found, or of all volumes).
    pub alive_files: bool,
    /// Count the fully hashed live files (of the volume found, or of all).
    pub hashed_files: bool,
    /// Count the full-hash duplicate groups.
    pub dup_groups: bool,
    /// Find the size of the largest full-hash duplicate group.
    pub max_dup_members: bool,
    /// Read the stored journal position of the volume found, if one was found.
    pub last_usn: bool,
}

pub open spec fn opt_str_view(o: Option<String>) -> Option<Seq<char>> {
    match o {
        Some(s) => Some(s@),
        None => None,
    }
}

pub fn plan(opts: &VerifyOpts) -> (r: VerifyPlan)
    ensures
        r.integrity == opts.integrity,
        opt_str_view(r.volume) == (match opts.volume {
            Some(v) => Some(normalized_drive_root(v@)),
            None => None,
        }),
        r.alive_files == (opts.expect_files_min is Some || opts.expect_files_max is Some
            || opts.expect_hashed_pct is Some),
        r.hashed_files == opts.expect_hashed_pct is Some,
        r.dup_groups == opts.expect_dup_groups is Some,
        r.max_dup_members == opts.expect_dup_members_min is Some,
        r.last_usn == opts.expect_usn,
{
    let volume = match &opts.volume {
        Some(v) => Some(normalize_drive_root(v.as_str())),
        None => None,
    };
    VerifyPlan {
        integrity: opts.integrity,
        volume,
        alive_files: opts.expect_files_min.is_some() || opts.expect_files_max.is_some()
            || opts.expect_hashed_pct.is_some(),
        hashed_files: opts.expect_hashed_pct.is_some(),
        dup_groups: opts.expect_dup_groups.is_some(),
        max_dup_members: opts.expect_dup_members_min.is_some(),
        last_usn: opts.expect_usn,
    }
}

/// The volume the counts are restricted to: the one found, when a volume was
/// named and found.
pub open spec fn volume_id_spec(opts: VerifyOpts, answer: Result<Option<i64>, String>) -> Option<i64> {
    if opts.volume is Some {
        match answer {
            Ok(Some(id)) => Some(id),
            _ => None,
        }
    } else {
        None
    }
}

pub fn volume_id_of(opts: &VerifyOpts, answer: &Result<Option<i64>, String>) -> (r: Option<i64>)
    ensures
        r == volume_id_spec(*opts, *answer),
{
    if opts.volume.is_some() {
        match answer {
            Ok(Some(id)) => Some(*id),
            _ => None,
        }
    } else {
        None
    }
}

// ---------------------------------------------------------------------------
// The checks
// ---------------------------------------------------------------------------

pub open spec fn check_spec(name: Seq<char>, code: i32, passed: bool, detail: Seq<char>) -> CheckSpec {
    CheckSpec { name, code, passed, detail }
}

#[verifier::opaque]
pub open spec fn integrity_check_spec(answer: Result<bool, String>) -> CheckSpec {
    match answer {
        Ok(true) => check_spec(
            "db_integrity"@,
            exit_code::VERIFY_DB_INTEGRITY,
            true,
            "PRAGMA integrity_check = ok"@,
        ),
        Ok(false) => check_spec(
            "db_integrity"@,
            exit_code::VERIFY_DB_INTEGRITY,
            false,
            "PRAGMA integrity_check вернул ошибку"@,
        ),
        Err(e) => check_spec(
            "db_integrity"@,
            exit_code::VERIFY_DB_INTEGRITY,
            false,
            "ошибка запроса: "@ + e@,
        ),
    }
}

#[verifier::opaque]
pub open spec fn volume_check_spec(normalized: Seq<char>, answer: Result<Option<i64>, String>) -> CheckSpec {
    match answer {
        Ok(Some(id)) => check_spec(
            "volume_exists"@,
            exit_code::VERIFY_VOLUME_MISSING,
            true,
            "том '"@ + normalized + "' найден (id="@ + signed_decimal(id as int) + ")"@,
        ),
        Ok(None) => check_spec(
            "volume_exists"@,
            exit_code::VERIFY_VOLUME_MISSING,
            false,
            "том '"@ + normalized + "' не найден в БД"@,
        ),
        Err(e) => check_spec(
            "volume_exists"@,
            exit_code::VERIFY_VOLUME_MISSING,
            false,
            "ошибка запроса тома: "@ + e@,
        ),
    }
}

#[verifier::opaque]
pub open spec fn files_count_check_spec(
    min: Option<i64>,
    max: Option<i64>,
    answer: Result<i64, String>,
) -> CheckSpec {
    match answer {
        Ok(n) => {
            let min_ok = match min {
                Some(m) => n >= m,
                None => true,
            };
            let max_ok = match max {
                Some(m) => n <= m,
                None => true,
            };
            check_spec(
                "files_count"@,
                exit_code::VERIFY_FILES_COUNT,
                min_ok && max_ok,
                "живых файлов: "@ + signed_decimal(n as int) + " (ожидание: "@ + debug_option(min)
                    + ".."@ + debug_option(max) + ")"@,
            )
        },
        Err(e) => check_spec(
            "files_count"@,
            exit_code::VERIFY_FILES_COUNT,
            false,
            "ошибка подсчёта: "@ + e@,
        ),
    }
}

pub open spec fn count_or_zero(answer: Result<i64, String>) -> i64 {
    match answer {
        Ok(n) => n,
        Err(_) => 0,
    }
}

/// Integer division rounding toward zero, as Rust's `/` on integers does.
pub open spec fn trunc_div(a: int, b: int) -> int {
    if a >= 0 {
        a / b
    } else {
        -((-a) / b)
    }
}

/// The share of live files that are fully hashed, in whole percent (0 when
/// there are no live files); failed counts count as 0.
pub open spec fn hashed_percent(alive: Result<i64, String>, hashed: Result<i64, String>) -> int {
    let total = count_or_zero(alive);
    if total > 0 {
        trunc_div(count_or_zero(hashed) * 100, total as int)
    } else {
        0
    }
}

/// The percentage can be computed in 64 bits.
pub open spec fn hashed_percent_fits(alive: Result<i64, String>, hashed: Result<i64, String>) -> bool {
    count_or_zero(alive) > 0 ==> i64::MIN <= count_or_zero(hashed) * 100 <= i64::MAX
}

#[verifier::opaque]
pub open spec fn hashes_check_spec(
    pct: i64,
    alive: Result<i64, String>,
    hashed: Result<i64, String>,
) -> CheckSpec {
    let total = count_or_zero(alive);
    let h = count_or_zero(hashed);
    let actual = hashed_percent(alive, hashed);
    check_spec(
        "hashes"@,
        exit_code::VERIFY_HASHES,
        (total == 0 && pct == 0) || actual >= pct,
        "хешировано: "@ + signed_decimal(h as int) + "/"@ + signed_decimal(total as int) + " ("@
            + signed_decimal(actual) + "%, ожидание >= "@ + signed_decimal(pct as int) + "%)"@,
    )
}

#[verifier::opaque]
pub open spec fn dup_groups_check_spec(expected: i64, answer: Result<i64, String>) -> CheckSpec {
    match answer {
        Ok(n) => check_spec(
            "dup_groups"@,
            exit_code::VERIFY_DUP_GROUPS,
            n == expected,
            "групп дубликатов: "@ + signed_decimal(n as int) + " (ожидание: "@ + signed_decimal(
                expected as int,
            ) + ")"@,
        ),
        Err(e) => check_spec(
            "dup_groups"@,
            exit_code::VERIFY_DUP_GROUPS,
            false,
            "ошибка подсчёта: "@ + e@,
        ),
    }
}

#[verifier::opaque]
pub open spec fn dup_members_check_spec(min: i64, answer: Result<i64, String>) -> CheckSpec {
    match answer {
        Ok(n) => check_spec(
            "dup_members"@,
            exit_code::VERIFY_DUP_MEMBERS,
            n >= min,
            "файлов в крупнейшей группе: "@ + signed_decimal(n as int) + " (ожидание >= "@
                + signed_decimal(min as int) + ")"@,
        ),
        Err(e) => check_spec(
            "dup_members"@,
            exit_code::VERIFY_DUP_MEMBERS,
            false,
            "ошибка подсчёта: "@ + e@,
        ),
    }
}

#[verifier::opaque]
pub open spec fn usn_check_spec(volume_id: Option<i64>, answer: Result<Option<i64>, String>) -> CheckSpec {
    match volume_id {
        None => check_spec(
            "usn_stored"@,
            exit_code::VERIFY_USN,
            false,
            "не задан --volume, нечего проверять"@,
        ),
        Some(_) => match answer {
            Ok(Some(usn)) => if usn > 0 {
                check_spec(
                    "usn_stored"@,
                    exit_code::VERIFY_USN,
                    true,
                    "last_usn = "@ + signed_decimal(usn as int),
                )
            } else {
                check_spec(
                    "usn_stored"@,
                    exit_code::VERIFY_USN,
                    false,
                    "last_usn не сохранён (инкрементальный скан не сработает)"@,
                )
            },
            Ok(None) => check_spec(
                "usn_stored"@,
                exit_code::VERIFY_USN,
                false,
                "last_usn не сохранён (инкрементальный скан не сработает)"@,
            ),
            Err(e) => check_spec(
                "usn_stored"@,
                exit_code::VERIFY_USN,
                false,
                "ошибка запроса: "@ + e@,
            ),
        },
    }
}

/// The integrity check, when asked for.
pub open spec fn integrity_section(opts: VerifyOpts, a: VerifyAnswers) -> Seq<CheckSpec> {
    if opts.integrity {
        seq![integrity_check_spec(a.integrity)]
    } else {
        Seq::empty()
    }
}

pub open spec fn volume_section(opts: VerifyOpts, a: VerifyAnswers) -> Seq<CheckSpec> {
    match opts.volume {
        Some(v) => seq![volume_check_spec(normalized_drive_root(v@), a.volume_id)],
        None => Seq::empty(),
    }
}

pub open spec fn files_section(opts: VerifyOpts, a: VerifyAnswers) -> Seq<CheckSpec> {
    if opts.expect_files_min is Some || opts.expect_files_max is Some {
        seq![files_count_check_spec(opts.expect_files_min, opts.expect_files_max, a.alive_files)]
    } else {
        Seq::empty()
    }
}

pub open spec fn hashes_section(opts: VerifyOpts, a: VerifyAnswers) -> Seq<CheckSpec> {
    match opts.expect_hashed_pct {
        Some(pct) => seq![hashes_check_spec(pct, a.alive_files, a.hashed_files)],
        None => Seq::empty(),
    }
}

pub open spec fn groups_section(opts: VerifyOpts, a: VerifyAnswers) -> Seq<CheckSpec> {
    match opts.expect_dup_groups {
        Some(n) => seq![dup_groups_check_spec(n, a.dup_groups)],
        None => Seq::empty(),
    }
}

pub open spec fn members_section(opts: VerifyOpts, a: VerifyAnswers) -> Seq<CheckSpec> {
    match opts.expect_dup_members_min {
        Some(n) => seq![dup_members_check_spec(n, a.max_dup_members)],
        None => Seq::empty(),
    }
}

pub open spec fn usn_section(opts: VerifyOpts, a: VerifyAnswers) -> Seq<CheckSpec> {
    if opts.expect_usn {
        seq![usn_check_spec(volume_id_spec(opts, a.volume_id), a.last_usn)]
    } else {
        Seq::empty()
    }
}

/// The checks of a verification, in report order: integrity, volume, file
/// count, hashes, duplicate groups, duplicate members, journal position; each
/// present only when the options ask for it.
pub open spec fn expected_checks(opts: VerifyOpts, a: VerifyAnswers) -> Seq<CheckSpec> {
    integrity_section(opts, a) + volume_section(opts, a) + files_section(opts, a) + hashes_section(
        opts,
        a,
    ) + groups_section(opts, a) + members_section(opts, a) + usn_section(opts, a)
}

fn text(parts: &str) -> (r: String)
    ensures
        r@ == parts@,
{
    parts.to_owned()
}

pub fn integrity_check(answer: &Result<bool, String>) -> (r: Check)
    ensures
        r@ == integrity_check_spec(*answer),
{
    reveal(integrity_check_spec);
    match answer {
        Ok(true) => Check::pass(
            "db_integrity",
            exit_code::VERIFY_DB_INTEGRITY,
            text("PRAGMA integrity_check = ok"),
        ),
        Ok(false) => Check::fail(
            "db_integrity",
            exit_code::VERIFY_DB_INTEGRITY,
            text("PRAGMA integrity_check вернул ошибку"),
        ),
        Err(e) => {
            let mut d = text("ошибка запроса: ");
            d.append(e.as_str());
            Check::fail("db_integrity", exit_code::VERIFY_DB_INTEGRITY, d)
        },
    }
}

pub fn volume_check(normalized: &str, answer: &Result<Option<i64>, String>) -> (r: Check)
    ensures
        r@ == volume_check_spec(normalized@, *answer),
{
    reveal(volume_check_spec);
    match answer {
        Ok(Some(id)) => {
            let mut d = text("том '");
            d.append(normalized);
            d.append("' найден (id=");
            push_signed_decimal(&mut d, *id);
            d.append(")");
            assert(d@ =~= "том '"@ + normalized@ + "' найден (id="@ + signed_decimal(*id as int)
                + ")"@);
            Check::pass("volume_exists", exit_code::VERIFY_VOLUME_MISSING, d)
        },
        Ok(None) => {
            let mut d = text("том '");
            d.append(normalized);
            d.append("' не найден в БД");
            Check::fail("volume_exists", exit_code::VERIFY_VOLUME_MISSING, d)
        },
        Err(e) => {
            let mut d = text("ошибка запроса тома: ");
            d.append(e.as_str());
            Check::fail("volume_exists", exit_code::VERIFY_VOLUME_MISSING, d)
        },
    }
}

pub fn files_count_check(min: Option<i64>, max: Option<i64>, answer: &Result<i64, String>) -> (r: Check)
    ensures
        r@ == files_count_check_spec(min, max, *answer),
{
    reveal(files_count_check_spec);
    match answer {
        Ok(n) => {
            let n = *n;
            let min_ok = match min {
                Some(m) => n >= m,
                None => true,
            };
            let max_ok = match max {
                Some(m) => n <= m,
                None => true,
            };
            let mut d = text("живых файлов: ");
            push_signed_decimal(&mut d, n);
            d.append(" (ожидание: ");
            push_debug_option(&mut d, min);
            d.append("..");
            push_debug_option(&mut d, max);
            d.append(")");
            assert(d@ =~= "живых файлов: "@ + signed_decimal(n as int) + " (ожидание: "@
                + debug_option(min) + ".."@ + debug_option(max) + ")"@);
            if min_ok && max_ok {
                Check::pass("files_count", exit_code::VERIFY_FILES_COUNT, d)
            } else {
                Check::fail("files_count", exit_code::VERIFY_FILES_COUNT, d)
            }
        },
        Err(e) => {
            let mut d = text("ошибка подсчёта: ");
            d.append(e.as_str());
            Check::fail("files_count", exit_code::VERIFY_FILES_COUNT, d)
        },
    }
}

fn count_or_zero_of(answer: &Result<i64, String>) -> (r: i64)
    ensures
        r == count_or_zero(*answer),
{
    match answer {
        Ok(n) => *n,
        Err(_) => 0,
    }
}

pub fn hashes_check(pct: i64, alive: &Result<i64, String>, hashed: &Result<i64, String>) -> (r: Check)
    requires
        hashed_percent_fits(*alive, *hashed),
    ensures
        r@ == hashes_check_spec(pct, *alive, *hashed),
{
    reveal(hashes_check_spec);
    let total = count_or_zero_of(alive);
    let h = count_or_zero_of(hashed);
    let actual: i64 = if total > 0 {
        let scaled = h * 100;
        if scaled >= 0 {
            scaled / total
        } else {
            assert(-scaled <= i64::MAX);
            -((-scaled) / total)
        }
    } else {
        0
    };
    assert(actual == hashed_percent(*alive, *hashed));
    let mut d = text("хешировано: ");
    push_signed_decimal(&mut d, h);
    d.append("/");
    push_signed_decimal(&mut d, total);
    d.append(" (");
    push_signed_decimal(&mut d, actual);
    d.append("%, ожидание >= ");
    push_signed_decimal(&mut d, pct);
    d.append("%)");
    assert(d@ =~= "хешировано: "@ + signed_decimal(h as int) + "/"@ + signed_decimal(total as int)
        + " ("@ + signed_decimal(actual as int) + "%, ожидание >= "@ + signed_decimal(pct as int)
        + "%)"@);
    if total == 0 && pct == 0 || actual >= pct {
        Check::pass("hashes", exit_code::VERIFY_HASHES, d)
    } else {
        Check::fail("hashes", exit_code::VERIFY_HASHES, d)
    }
}

pub fn dup_groups_check(expected: i64, answer: &Result<i64, String>) -> (r: Check)
    ensures
        r@ == dup_groups_check_spec(expected, *answer),
{
    reveal(dup_groups_check_spec);
    match answer {
        Ok(n) => {
            let n = *n;
            let mut d = text("групп дубликатов: ");
            push_signed_decimal(&mut d, n);
            d.append(" (ожидание: ");
            push_signed_decimal(&mut d, expected);
            d.append(")");
            assert(d@ =~= "групп дубликатов: "@ + signed_decimal(n as int) + " (ожидание: "@
                + signed_decimal(expected as int) + ")"@);
            if n == expected {
                Check::pass("dup_groups", exit_code::VERIFY_DUP_GROUPS, d)
            } else {
                Check::fail("dup_groups", exit_code::VERIFY_DUP_GROUPS, d)
            }
        },
        Err(e) => {
            let mut d = text("ошибка подсчёта: ");
            d.append(e.as_str());
            Check::fail("dup_groups", exit_code::VERIFY_DUP_GROUPS, d)
        },
    }
}

pub fn dup_members_check(min: i64, answer: &Result<i64, String>) -> (r: Check)
    ensures
        r@ == dup_members_check_spec(min, *answer),
        r.code == 15,
        *answer matches Ok(n) ==> r.passed == (n >= min),
        answer is Err ==> !r.passed,
{
    reveal(dup_members_check_spec);
    match answer {
        Ok(n) => {
            let n = *n;
            let mut d = text("файлов в крупнейшей группе: ");
            push_signed_decimal(&mut d, n);
            d.append(" (ожидание >= ");
            push_signed_decimal(&mut d, min);
            d.append(")");
            assert(d@ =~= "файлов в крупнейшей группе: "@ + signed_decimal(n as int)
                + " (ожидание >= "@ + signed_decimal(min as int) + ")"@);
            if n >= min {
                Check::pass("dup_members", exit_code::VERIFY_DUP_MEMBERS, d)
            } else {
                Check::fail("dup_members", exit_code::VERIFY_DUP_MEMBERS, d)
            }
        },
        Err(e) => {
            let mut d = text("ошибка подсчёта: ");
            d.append(e.as_str());
            Check::fail("dup_members", exit_code::VERIFY_DUP_MEMBERS, d)
        },
    }
}

pub fn usn_check(volume_id: Option<i64>, answer: &Result<Option<i64>, String>) -> (r: Check)
    ensures
        r@ == usn_check_spec(volume_id, *answer),
{
    reveal(usn_check_spec);
    match volume_id {
        None => Check::fail(
            "usn_stored",
            exit_code::VERIFY_USN,
            text("не задан --volume, нечего проверять"),
        ),
        Some(_) => match answer {
            Ok(Some(usn)) if *usn > 0 => {
                let mut d = text("last_usn = ");
                push_signed_decimal(&mut d, *usn);
                Check::pass("usn_stored", exit_code::VERIFY_USN, d)
            },
            Ok(_) => Check::fail(
                "usn_stored",
                exit_code::VERIFY_USN,
                text("last_usn не сохранён (инкрементальный скан не сработает)"),
            ),
            Err(e) => {
                let mut d = text("ошибка запроса: ");
                d.append(e.as_str());
                Check::fail("usn_stored", exit_code::VERIFY_USN, d)
            },
        },
    }
}

pub open spec fn check_views(v: Seq<Check>) -> Seq<CheckSpec> {
    v.map_values(|c: Check| c@)
}

fn push_check(out: &mut Vec<Check>, c: Check)
    ensures
        check_views(final(out)@) == check_views(old(out)@).push(c@),
{
    out.push(c);
    assert(check_views(out@) =~= check_views(old(out)@).push(c@));
}

fn push_integrity_section(out: &mut Vec<Check>, opts: &VerifyOpts, answers: &VerifyAnswers)
    ensures
        check_views(final(out)@) == check_views(old(out)@) + integrity_section(*opts, *answers),
{
    if opts.integrity {
        push_check(out, integrity_check(&answers.integrity));
    }
    assert(check_views(out@) =~= check_views(old(out)@) + integrity_section(*opts, *answers));
}

fn push_volume_section(out: &mut Vec<Check>, opts: &VerifyOpts, answers: &VerifyAnswers)
    ensures
        check_views(final(out)@) == check_views(old(out)@) + volume_section(*opts, *answers),
{
    match &opts.volume {
        Some(v) => {
            let normalized = normalize_drive_root(v.as_str());
            push_check(out, volume_check(normalized.as_str(), &answers.volume_id));
        },
        None => {},
    }
    assert(check_views(out@) =~= check_views(old(out)@) + volume_section(*opts, *answers));
}

fn push_files_section(out: &mut Vec<Check>, opts: &VerifyOpts, answers: &VerifyAnswers)
    ensures
        check_views(final(out)@) == check_views(old(out)@) + files_section(*opts, *answers),
{
    if opts.expect_files_min.is_some() || opts.expect_files_max.is_some() {
        push_check(
            out,
            files_count_check(opts.expect_files_min, opts.expect_files_max, &answers.alive_files),
        );
    }
    assert(check_views(out@) =~= check_views(old(out)@) + files_section(*opts, *answers));
}

fn push_hashes_section(out: &mut Vec<Check>, opts: &VerifyOpts, answers: &VerifyAnswers)
    requires
        opts.expect_hashed_pct is Some ==> hashed_percent_fits(answers.alive_files, answers.hashed_files),
    ensures
        check_views(final(out)@) == check_views(old(out)@) + hashes_section(*opts, *answers),
{
    match opts.expect_hashed_pct {
        Some(pct) => {
            push_check(out, hashes_check(pct, &answers.alive_files, &answers.hashed_files));
        },
        None => {},
    }
    assert(check_views(out@) =~= check_views(old(out)@) + hashes_section(*opts, *answers));
}

fn push_groups_section(out: &mut Vec<Check>, opts: &VerifyOpts, answers: &VerifyAnswers)
    ensures
        check_views(final(out)@) == check_views(old(out)@) + groups_section(*opts, *answers),
{
    match opts.expect_dup_groups {
        Some(n) => {
            push_check(out, dup_groups_check(n, &answers.dup_groups));
        },
        None => {},
    }
    assert(check_views(out@) =~= check_views(old(out)@) + groups_section(*opts, *answers));
}

fn push_members_section(out: &mut Vec<Check>, opts: &VerifyOpts, answers: &VerifyAnswers)
    ensures
        check_views(final(out)@) == check_views(old(out)@) + members_section(*opts, *answers),
{
    match opts.expect_dup_members_min {
        Some(n) => {
            push_check(out, dup_members_check(n, &answers.max_dup_members));
        },
        None => {},
    }
    assert(check_views(out@) =~= check_views(old(out)@) + members_section(*opts, *answers));
}

fn push_usn_section(out: &mut Vec<Check>, opts: &VerifyOpts, answers: &VerifyAnswers)
    ensures
        check_views(final(out)@) == check_views(old(out)@) + usn_section(*opts, *answers),
{
    if opts.expect_usn {
        let volume_id = volume_id_of(opts, &answers.volume_id);
        push_check(out, usn_check(volume_id, &answers.last_usn));
    }
    assert(check_views(out@) =~= check_views(old(out)@) + usn_section(*opts, *answers));
}

/// The checks of a verification from the answers of the index.
pub fn evaluate(opts: &VerifyOpts, answers: &VerifyAnswers) -> (r: Vec<Check>)
    requires
        opts.expect_hashed_pct is Some ==> hashed_percent_fits(answers.alive_files, answers.hashed_files),
    ensures
        check_views(r@) == expected_checks(*opts, *answers),
{
    let mut out: Vec<Check> = Vec::new();
    assert(check_views(out@) =~= Seq::<CheckSpec>::empty());
    push_integrity_section(&mut out, opts, answers);
    push_volume_section(&mut out, opts, answers);
    push_files_section(&mut out, opts, answers);
    push_hashes_section(&mut out, opts, answers);
    push_groups_section(&mut out, opts, answers);
    push_members_section(&mut out, opts, answers);
    push_usn_section(&mut out, opts, answers);
    assert(check_views(out@) =~= expected_checks(*opts, *answers));
    out
}

// ---------------------------------------------------------------------------
// The result
// ---------------------------------------------------------------------------

/// The code of the first failed check, if any.
pub open spec fn first_failure(checks: Seq<CheckSpec>) -> Option<i32>
    decreases checks.len(),
{
    if checks.len() == 0 {
        None
    } else if !checks[0].passed {
        Some(checks[0].code)
    } else {
        first_failure(checks.drop_first())
    }
}

/// The exit code of a verification: that of the first failed check, or 0.
pub open spec fn exit_code_spec(checks: Seq<CheckSpec>) -> i32 {
    match first_failure(checks) {
        Some(c) => c,
        None => exit_code::OK,
    }
}

/// The number of passed checks.
pub open spec fn passed_count_spec(checks: Seq<CheckSpec>) -> nat
    decreases checks.len(),
{
    if checks.len() == 0 {
        0
    } else {
        passed_count_spec(checks.drop_last()) + if checks.last().passed {
            1nat
        } else {
            0nat
        }
    }
}

pub fn exit_code_of(checks: &Vec<Check>) -> (r: i32)
    ensures
        r == exit_code_spec(check_views(checks@)),
{
    let ghost s = check_views(checks@);
    let n = checks.len();
    let mut i: usize = 0;
    assert(s.skip(0) =~= s);
    while i < n
        invariant
            0 <= i <= n,
            n == checks@.len(),
            s == check_views(checks@),
            first_failure(s) == first_failure(s.skip(i as int)),
        decreases n - i,
    {
        assert(s.skip(i as int)[0] == checks@[i as int]@);
        if !checks[i].passed {
            return checks[i].code;
        }
        assert(s.skip(i as int).drop_first() =~= s.skip(i + 1));
        i = i + 1;
    }
    exit_code::OK
}

pub fn passed_count(checks: &Vec<Check>) -> (r: usize)
    ensures
        r == passed_count_spec(check_views(checks@)),
{
    let ghost s = check_views(checks@);
    let n = checks.len();
    let mut i: usize = 0;
    let mut count: usize = 0;
    assert(s.take(0) =~= Seq::<CheckSpec>::empty());
    while i < n
        invariant
            0 <= i <= n,
            n == checks@.len(),
            s == check_views(checks@),
            count == passed_count_spec(s.take(i as int)),
            count <= i,
        decreases n - i,
    {
        assert(s.take(i + 1).drop_last() =~= s.take(i as int));
        assert(s.take(i + 1).last() == checks@[i as int]@);
        if checks[i].passed {
            count = count + 1;
        }
        i = i + 1;
    }
    assert(s.take(n as int) =~= s);
    count
}

// ---------------------------------------------------------------------------
// Laws
// ---------------------------------------------------------------------------

proof fn lemma_first_failure_none(checks: Seq<CheckSpec>)
    ensures
        first_failure(checks) is None <==> forall|i: int| 0 <= i < checks.len() ==> #[trigger] checks[i].passed,
    decreases checks.len(),
{
    if checks.len() > 0 {
        lemma_first_failure_none(checks.drop_first());
        if checks[0].passed {
            assert forall|i: int| 0 <= i < checks.len() && (forall|j: int| 0 <= j < checks.drop_first().len() ==> #[trigger] checks.drop_first()[j].passed) implies #[trigger] checks[i].passed by {
                if i > 0 {
                    assert(checks.drop_first()[i - 1] == checks[i]);
                }
            }
            assert((forall|i: int| 0 <= i < checks.len() ==> #[trigger] checks[i].passed) ==> (forall|j: int| 0 <= j < checks.drop_first().len() ==> #[trigger] checks.drop_first()[j].passed)) by {
                assert forall|j: int| 0 <= j < checks.drop_first().len() && (forall|i: int| 0 <= i < checks.len() ==> #[trigger] checks[i].passed) implies #[trigger] checks.drop_first()[j].passed by {
                    assert(checks[j + 1] == checks.drop_first()[j]);
                }
            }
        }
    }
}

proof fn lemma_first_failure_is_a_failure(checks: Seq<CheckSpec>)
    ensures
        first_failure(checks) matches Some(c) ==> exists|i: int| 0 <= i < checks.len() && !checks[i].passed && checks[i].code == c,
    decreases checks.len(),
{
    if checks.len() > 0 && checks[0].passed {
        lemma_first_failure_is_a_failure(checks.drop_first());
        if let Some(c) = first_failure(checks) {
            let i = choose|i: int| 0 <= i < checks.drop_first().len() && !checks.drop_first()[i].passed && checks.drop_first()[i].code == c;
            assert(checks[i + 1] == checks.drop_first()[i]);
        }
    }
}

/// Every check that a verification can report carries a non-zero code.
proof fn lemma_expected_codes_nonzero(opts: VerifyOpts, a: VerifyAnswers)
    ensures
        forall|i: int| 0 <= i < expected_checks(opts, a).len() ==> #[trigger] expected_checks(opts, a)[i].code >= 10,
{
    reveal(integrity_check_spec);
    reveal(volume_check_spec);
    reveal(files_count_check_spec);
    reveal(hashes_check_spec);
    reveal(dup_groups_check_spec);
    reveal(dup_members_check_spec);
    reveal(usn_check_spec);
    let s = expected_checks(opts, a);
    assert forall|i: int| 0 <= i < s.len() implies #[trigger] s[i].code >= 10 by {
    }
}

/// A verification exits with 0 exactly when every check it reports passed;
/// otherwise it exits with the code of the first failed check.
pub proof fn verification_succeeds_iff_all_checks_pass(opts: VerifyOpts, a: VerifyAnswers)
    ensures
        (exit_code_spec(expected_checks(opts, a)) == exit_code::OK) <==> (forall|i: int|
            0 <= i < expected_checks(opts, a).len() ==> #[trigger] expected_checks(opts, a)[i].passed),
        exit_code_spec(expected_checks(opts, a)) != exit_code::OK ==> exists|i: int|
            0 <= i < expected_checks(opts, a).len() && !expected_checks(opts, a)[i].passed
                && expected_checks(opts, a)[i].code == exit_code_spec(expected_checks(opts, a)),
{
    let s = expected_checks(opts, a);
    lemma_first_failure_none(s);
    lemma_first_failure_is_a_failure(s);
    lemma_expected_codes_nonzero(opts, a);
    if let Some(c) = first_failure(s) {
        let i = choose|i: int| 0 <= i < s.len() && !s[i].passed && s[i].code == c;
        assert(s[i].code >= 10);
    }
}

/// The duplicate-members check passes exactly when the largest duplicate
/// group has at least the expected number of files; it fails when the index
/// could not answer, and it always reports code 15.
pub proof fn dup_members_check_passes_iff_enough(min: i64, n: i64, e: String)
    ensures
        dup_members_check_spec(min, Ok(n)).passed == (n >= min),
        dup_members_check_spec(min, Ok(n)).code == 15,
        !dup_members_check_spec(min, Err(e)).passed,
        dup_members_check_spec(min, Err(e)).code == 15,
{
    reveal(dup_members_check_spec);
}

/// Options that ask for nothing but a minimum size of the largest duplicate
/// group.
pub open spec fn only_dup_members_min(opts: VerifyOpts, m: i64) -> bool {
    &&& !opts.integrity
    &&& opts.volume is None
    &&& opts.expect_files_min is None
    &&& opts.expect_files_max is None
    &&& opts.expect_hashed_pct is None
    &&& opts.expect_dup_groups is None
    &&& opts.expect_dup_members_min == Some(m)
    &&& !opts.expect_usn
}

/// A verification that expects the largest duplicate group to have at least
/// `m` files does not succeed when the largest group has fewer; asked only
/// that, it exits with 15 when the group is too small and with 0 otherwise.
pub proof fn too_few_dup_members_fails_verification(opts: VerifyOpts, a: VerifyAnswers, m: i64, n: i64)
    requires
        opts.expect_dup_members_min == Some(m),
        a.max_dup_members == Ok::<i64, String>(n),
    ensures
        n < m ==> exit_code_spec(expected_checks(opts, a)) != 0,
        only_dup_members_min(opts, m) ==> exit_code_spec(expected_checks(opts, a)) == (if n < m {
            15i32
        } else {
            0i32
        }),
{
    reveal(dup_members_check_spec);
    let s = expected_checks(opts, a);
    let before = integrity_section(opts, a) + volume_section(opts, a) + files_section(opts, a)
        + hashes_section(opts, a) + groups_section(opts, a);
    let c = dup_members_check_spec(m, a.max_dup_members);
    assert(members_section(opts, a) == seq![c]);
    let i = before.len() as int;
    assert(s == before + seq![c] + usn_section(opts, a));
    assert(s[i] == c);
    assert(0 <= i < s.len());
    verification_succeeds_iff_all_checks_pass(opts, a);
    if n < m {
        assert(!s[i].passed);
        assert(!(forall|j: int| 0 <= j < s.len() ==> #[trigger] s[j].passed));
    }
    if only_dup_members_min(opts, m) {
        assert(s =~= seq![c]);
        assert(s.drop_first() =~= Seq::<CheckSpec>::empty());
    }
}

pub open spec fn res_view<T>(r: Result<T, String>) -> Result<T, Seq<char>> {
    match r {
        Ok(v) => Ok(v),
        Err(e) => Err(e@),
    }
}

/// Two sets of answers agree on every question the plan of the options asks.
pub open spec fn agree_on_asked(opts: VerifyOpts, a: VerifyAnswers, b: VerifyAnswers) -> bool {
    &&& opts.integrity ==> res_view(a.integrity) == res_view(b.integrity)
    &&& opts.volume is Some ==> res_view(a.volume_id) == res_view(b.volume_id)
    &&& (opts.expect_files_min is Some || opts.expect_files_max is Some || opts.expect_hashed_pct is Some)
        ==> res_view(a.alive_files) == res_view(b.alive_files)
    &&& opts.expect_hashed_pct is Some ==> res_view(a.hashed_files) == res_view(b.hashed_files)
    &&& opts.expect_dup_groups is Some ==> res_view(a.dup_groups) == res_view(b.dup_groups)
    &&& opts.expect_dup_members_min is Some ==> res_view(a.max_dup_members) == res_view(
        b.max_dup_members,
    )
    &&& (opts.expect_usn && volume_id_spec(opts, a.volume_id) is Some) ==> res_view(a.last_usn)
        == res_view(b.last_usn)
}

/// Only the questions the plan asks matter: answers that agree on them give
/// the same checks.
pub proof fn unasked_answers_are_ignored(opts: VerifyOpts, a: VerifyAnswers, b: VerifyAnswers)
    requires
        agree_on_asked(opts, a, b),
    ensures
        expected_checks(opts, a) == expected_checks(opts, b),
{
    assert(volume_id_spec(opts, a.volume_id) == volume_id_spec(opts, b.volume_id));
    assert(integrity_section(opts, a) == integrity_section(opts, b)) by {
        reveal(integrity_check_spec);
        if opts.integrity {
            assert(integrity_check_spec(a.integrity) == integrity_check_spec(b.integrity));
        }
    }
    assert(volume_section(opts, a) == volume_section(opts, b)) by {
        reveal(volume_check_spec);
    }
    assert(files_section(opts, a) == files_section(opts, b)) by {
        reveal(files_count_check_spec);
    }
    assert(hashes_section(opts, a) == hashes_section(opts, b)) by {
        reveal(hashes_check_spec);
        if opts.expect_hashed_pct is Some {
            assert(count_or_zero(a.alive_files) == count_or_zero(b.alive_files));
            assert(count_or_zero(a.hashed_files) == count_or_zero(b.hashed_files));
        }
    }
    assert(groups_section(opts, a) == groups_section(opts, b)) by {
        reveal(dup_groups_check_spec);
    }
    assert(members_section(opts, a) == members_section(opts, b)) by {
        reveal(dup_members_check_spec);
    }
    assert(usn_section(opts, a) == usn_section(opts, b)) by {
        reveal(usn_check_spec);
    }
}

} // verus!
