use getdub::verify::{
    dup_groups_check, evaluate, exit_code_of, files_count_check, hashes_check, integrity_check,
    passed_count, plan, usn_check, volume_check, volume_id_of, Check, VerifyAnswers, VerifyOpts,
};

fn no_opts() -> VerifyOpts {
    VerifyOpts {
        volume: None,
        expect_files_min: None,
        expect_files_max: None,
        expect_hashed_pct: None,
        expect_dup_groups: None,
        expect_dup_members_min: None,
        expect_usn: false,
        integrity: false,
    }
}

fn answers() -> VerifyAnswers {
    VerifyAnswers {
        integrity: Ok(true),
        volume_id: Ok(Some(3)),
        alive_files: Ok(10),
        hashed_files: Ok(7),
        dup_groups: Ok(2),
        max_dup_members: Ok(3),
        last_usn: Ok(Some(1234)),
    }
}

#[test]
fn nothing_asked_nothing_checked() {
    let checks = evaluate(&no_opts(), &answers());
    assert!(checks.is_empty());
    assert_eq!(exit_code_of(&checks), 0);
    let p = plan(&no_opts());
    assert!(!p.integrity && p.volume.is_none() && !p.alive_files && !p.hashed_files);
    assert!(!p.dup_groups && !p.max_dup_members && !p.last_usn);
}

#[test]
fn plan_follows_options() {
    let mut o = no_opts();
    o.volume = Some("c".into());
    o.expect_hashed_pct = Some(50);
    o.expect_usn = true;
    let p = plan(&o);
    assert_eq!(p.volume.as_deref(), Some("C:\\"));
    assert!(p.alive_files && p.hashed_files && p.last_usn);
    assert!(!p.integrity && !p.dup_groups && !p.max_dup_members);
    assert_eq!(volume_id_of(&o, &Ok(Some(3))), Some(3));
    assert_eq!(volume_id_of(&o, &Ok(None)), None);
    assert_eq!(volume_id_of(&o, &Err("x".into())), None);
    assert_eq!(volume_id_of(&no_opts(), &Ok(Some(3))), None);
}

#[test]
fn all_checks_pass() {
    let o = VerifyOpts {
        volume: Some("c".into()),
        expect_files_min: Some(5),
        expect_files_max: Some(10),
        expect_hashed_pct: Some(70),
        expect_dup_groups: Some(2),
        expect_dup_members_min: Some(3),
        expect_usn: true,
        integrity: true,
    };
    let checks = evaluate(&o, &answers());
    let names: Vec<&str> = checks.iter().map(|c| c.name).collect();
    assert_eq!(names, vec!["db_integrity", "volume_exists", "files_count", "hashes", "dup_groups", "dup_members", "usn_stored"]);
    assert!(checks.iter().all(|c| c.passed));
    assert_eq!(passed_count(&checks), 7);
    assert_eq!(exit_code_of(&checks), 0);
    assert_eq!(checks[1].detail, "том 'C:\\' найден (id=3)");
    assert_eq!(checks[2].detail, "живых файлов: 10 (ожидание: Some(5)..Some(10))");
    assert_eq!(checks[3].detail, "хешировано: 7/10 (70%, ожидание >= 70%)");
    assert_eq!(checks[4].detail, "групп дубликатов: 2 (ожидание: 2)");
    assert_eq!(checks[5].detail, "файлов в крупнейшей группе: 3 (ожидание >= 3)");
    assert_eq!(checks[6].detail, "last_usn = 1234");
}

#[test]
fn first_failure_decides_exit_code() {
    let mut o = no_opts();
    o.expect_files_min = Some(11);
    o.expect_dup_groups = Some(5);
    let checks = evaluate(&o, &answers());
    assert_eq!(checks.len(), 2);
    assert!(!checks[0].passed && !checks[1].passed);
    assert_eq!(exit_code_of(&checks), 12);
    assert_eq!(passed_count(&checks), 0);
    assert_eq!(checks[0].detail, "живых файлов: 10 (ожидание: Some(11)..None)");
}

#[test]
fn missing_volume_fails_usn_too() {
    let mut o = no_opts();
    o.volume = Some("q".into());
    o.expect_usn = true;
    let mut a = answers();
    a.volume_id = Ok(None);
    let checks = evaluate(&o, &a);
    assert_eq!(checks.len(), 2);
    assert_eq!(checks[0].detail, "том 'Q:\\' не найден в БД");
    assert_eq!(checks[1].detail, "не задан --volume, нечего проверять");
    assert_eq!(exit_code_of(&checks), 11);
}

#[test]
fn single_checks() {
    assert!(integrity_check(&Ok(true)).passed);
    let f = integrity_check(&Ok(false));
    assert_eq!((f.passed, f.code), (false, 10));
    assert_eq!(f.detail, "PRAGMA integrity_check вернул ошибку");
    assert_eq!(integrity_check(&Err("boom".into())).detail, "ошибка запроса: boom");
    assert_eq!(volume_check("D:\\", &Err("e".into())).detail, "ошибка запроса тома: e");
    assert!(files_count_check(None, Some(3), &Ok(3)).passed);
    assert!(!files_count_check(None, Some(3), &Ok(4)).passed);
    assert_eq!(files_count_check(Some(-2), None, &Ok(-1)).detail, "живых файлов: -1 (ожидание: Some(-2)..None)");
    assert_eq!(files_count_check(None, None, &Err("e".into())).detail, "ошибка подсчёта: e");
    let h = hashes_check(0, &Ok(0), &Ok(0));
    assert!(h.passed);
    assert_eq!(h.detail, "хешировано: 0/0 (0%, ожидание >= 0%)");
    assert!(!hashes_check(1, &Ok(0), &Ok(0)).passed);
    assert_eq!(hashes_check(50, &Ok(3), &Ok(1)).detail, "хешировано: 1/3 (33%, ожидание >= 50%)");
    assert!(!hashes_check(50, &Ok(3), &Ok(1)).passed);
    assert_eq!(hashes_check(50, &Err("x".into()), &Ok(1)).detail, "хешировано: 1/0 (0%, ожидание >= 50%)");
    assert_eq!(hashes_check(-10, &Ok(3), &Ok(-1)).detail, "хешировано: -1/3 (-33%, ожидание >= -10%)");
    assert!(!dup_groups_check(1, &Ok(2)).passed);
    let u = usn_check(Some(1), &Ok(Some(0)));
    assert!(!u.passed);
    assert_eq!(u.detail, "last_usn не сохранён (инкрементальный скан не сработает)");
    assert_eq!(usn_check(Some(1), &Err("z".into())).detail, "ошибка запроса: z");
    let p = Check::pass("x", 1, "d".into());
    assert!(p.passed);
    assert!(!Check::fail("x", 1, "d".into()).passed);
}

#[test]
fn unasked_answers_do_not_matter() {
    let mut o = no_opts();
    o.expect_dup_groups = Some(2);
    let a = answers();
    let b = VerifyAnswers {
        integrity: Err("never asked".into()),
        volume_id: Ok(None),
        alive_files: Ok(0),
        hashed_files: Ok(0),
        dup_groups: Ok(2),
        max_dup_members: Ok(0),
        last_usn: Ok(None),
    };
    let ca = evaluate(&o, &a);
    let cb = evaluate(&o, &b);
    assert_eq!(ca.len(), cb.len());
    for (x, y) in ca.iter().zip(cb.iter()) {
        assert_eq!((x.name, x.code, x.passed, &x.detail), (y.name, y.code, y.passed, &y.detail));
    }
}
