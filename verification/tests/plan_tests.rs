use archivio_search::plan::{build_plan, strategy_of, Param, SearchRequest, Strategy};

fn req(
    q: &str,
    fts: &str,
    is_phone: bool,
    sesso: &str,
    residente: &str,
    page: i64,
    page_size: i64,
) -> SearchRequest {
    SearchRequest {
        q: q.to_string(),
        fts: fts.to_string(),
        is_phone,
        sesso: sesso.to_string(),
        residente: residente.to_string(),
        page,
        page_size,
    }
}

fn text_of(p: &Param) -> &str {
    match p {
        Param::Text(s) => s.as_str(),
        Param::Int(_) => panic!("expected a text parameter"),
    }
}

#[test]
fn phone_mode_takes_precedence_over_full_text() {
    let r = req("333 123 4567", "mario", true, "", "", 1, 20);
    assert!(matches!(strategy_of(&r), Strategy::Phone));
    let plan = build_plan(&r);
    assert_eq!(
        plan.count_sql,
        "SELECT COUNT(*) FROM records r WHERE 1=1 AND r.telefono LIKE ? "
    );
    assert!(!plan.count_sql.contains("MATCH"));
    assert!(!plan.select_sql.contains("MATCH"));
    assert!(!plan.select_sql.contains("JOIN"));
    assert_eq!(plan.params.len(), 1);
    assert_eq!(text_of(&plan.params[0]), "%3331234567%");
}

#[test]
fn full_text_mode_when_phone_flag_clear() {
    let r = req("ignored", "ciao", false, "", "", 1, 20);
    assert!(matches!(strategy_of(&r), Strategy::FullText));
    let plan = build_plan(&r);
    assert_eq!(
        plan.count_sql,
        "SELECT COUNT(*) FROM records r JOIN records_fts f ON f.rowid=r.id WHERE 1=1 AND r.id = f.rowid AND records_fts MATCH ? "
    );
    assert!(plan.select_sql.contains(" JOIN records_fts f ON f.rowid=r.id WHERE "));
    assert!(plan.select_sql.ends_with(" ORDER BY r.id LIMIT ? OFFSET ?"));
    assert_eq!(plan.params.len(), 1);
    assert_eq!(text_of(&plan.params[0]), "ciao");
}

#[test]
fn full_text_parameter_is_sanitized() {
    let r = req("", "O'Brien *test*", false, "", "", 1, 20);
    let plan = build_plan(&r);
    assert_eq!(text_of(&plan.params[0]), "O Brien *test*");
}

#[test]
fn phone_flag_with_blank_query_leaves_phone_mode_inactive() {
    // Phone mode needs both the flag and a non-blank primary query; with a
    // blank query it is not active, so a non-blank full-text query wins.
    let r = req("   ", "ciao", true, "", "", 1, 20);
    assert!(matches!(strategy_of(&r), Strategy::FullText));
    let plan = build_plan(&r);
    assert!(plan.count_sql.contains("records_fts MATCH ?"));
    assert!(!plan.count_sql.contains("telefono"));
    assert_eq!(plan.params.len(), 1);
    assert_eq!(text_of(&plan.params[0]), "ciao");
    // With the full-text query blank as well, nothing is left to match.
    let r = req("   ", " ", true, "", "", 1, 20);
    assert!(matches!(strategy_of(&r), Strategy::Unfiltered));
    let plan = build_plan(&r);
    assert_eq!(plan.count_sql, "SELECT COUNT(*) FROM records r WHERE 1=1");
    assert_eq!(plan.params.len(), 0);
}

#[test]
fn fallback_substring_mode_matches_four_fields() {
    let r = req(" mario ", "", false, "", "", 1, 20);
    assert!(matches!(strategy_of(&r), Strategy::Substring));
    let plan = build_plan(&r);
    assert_eq!(
        plan.count_sql,
        "SELECT COUNT(*) FROM records r WHERE 1=1 AND ( r.cognome LIKE ? OR r.nome LIKE ? OR r.azienda LIKE ? OR r.residente LIKE ? ) "
    );
    assert_eq!(plan.params.len(), 4);
    for p in &plan.params {
        assert_eq!(text_of(p), "%mario%");
    }
}

#[test]
fn unfiltered_listing_has_no_parameters() {
    let r = req("", "", false, "", "", 1, 20);
    assert!(matches!(strategy_of(&r), Strategy::Unfiltered));
    let plan = build_plan(&r);
    assert_eq!(plan.count_sql, "SELECT COUNT(*) FROM records r WHERE 1=1");
    assert_eq!(
        plan.select_sql,
        "SELECT r.id, r.telefono, r.idfb, r.nome, r.cognome, r.sesso, r.natoa, r.residente, r.statocivile, r.azienda, r.dataAcc, r.niente, r.niente2 FROM records r WHERE 1=1 ORDER BY r.id LIMIT ? OFFSET ?"
    );
    assert_eq!(plan.params.len(), 0);
}

#[test]
fn filters_come_before_the_strategy_parameters() {
    let r = req("x", "", false, "M", " Roma ", 1, 20);
    let plan = build_plan(&r);
    assert_eq!(plan.params.len(), 6);
    assert_eq!(text_of(&plan.params[0]), "M");
    assert_eq!(text_of(&plan.params[1]), "%Roma%");
    for i in 2..6 {
        assert_eq!(text_of(&plan.params[i]), "%x%");
    }
    assert_eq!(
        plan.count_sql,
        "SELECT COUNT(*) FROM records r WHERE 1=1 AND r.sesso = ?  AND r.residente LIKE ?  AND ( r.cognome LIKE ? OR r.nome LIKE ? OR r.azienda LIKE ? OR r.residente LIKE ? ) "
    );
}

#[test]
fn sesso_filter_is_passed_untrimmed_when_non_blank() {
    let r = req("", "", false, " M ", "", 1, 20);
    let plan = build_plan(&r);
    assert_eq!(text_of(&plan.params[0]), " M ");
}

#[test]
fn pagination_values() {
    let p = build_plan(&req("", "", false, "", "", 1, 20));
    assert_eq!((p.limit, p.offset), (20, 0));
    let p = build_plan(&req("", "", false, "", "", 3, 10));
    assert_eq!((p.limit, p.offset), (10, 20));
    let p = build_plan(&req("", "", false, "", "", 0, 10));
    assert_eq!((p.limit, p.offset), (10, 0));
    let p = build_plan(&req("", "", false, "", "", -5, 10));
    assert_eq!((p.limit, p.offset), (10, 0));
    let p = build_plan(&req("", "", false, "", "", 2, 0));
    assert_eq!((p.limit, p.offset), (1, 1));
    let p = build_plan(&req("", "", false, "", "", 2, -3));
    assert_eq!((p.limit, p.offset), (1, 1));
}
