//! The query planner: strategy selection, WHERE-clause and parameter-vector
//! assembly, and pagination, shared between the COUNT and SELECT statements.

use vstd::prelude::*;
use vstd::string::*;
use crate::text::{
    is_blank, sanitize_match, spec_is_blank, spec_sanitize, spec_strip_spaces, spec_trim,
    strip_spaces, trim, wrap_like,
};

verus! {

/// One caller request, immutable per call. Empty (blank) strings are the
/// "not set" sentinel for the filters and the query texts.
pub struct SearchRequest {
    /// Primary free-text query.
    pub q: String,
    /// Full-text query; may differ from `q`.
    pub fts: String,
    /// Phone-mode flag.
    pub is_phone: bool,
    /// Optional exact sex-code filter.
    pub sesso: String,
    /// Optional residence substring filter.
    pub residente: String,
    /// 1-based page number; values below 1 are treated as 1.
    pub page: i64,
    /// Page size; values below 1 are treated as 1.
    pub page_size: i64,
}

/// One SQL statement parameter.
pub enum Param {
    Text(String),
    Int(i64),
}

/// The mathematical value of a `Param`.
pub enum ParamModel {
    Text(Seq<char>),
    Int(int),
}

impl View for Param {
    type V = ParamModel;

    open spec fn view(&self) -> ParamModel {
        match self {
            Param::Text(s) => ParamModel::Text(s@),
            Param::Int(i) => ParamModel::Int(*i as int),
        }
    }
}

/// The values of a parameter vector.
pub open spec fn views_of(ps: Seq<Param>) -> Seq<ParamModel> {
    ps.map_values(|p: Param| p@)
}

/// The matching strategy a request selects; exactly one applies.
pub enum Strategy {
    /// Phone flag set and the primary query non-blank: substring match on the
    /// phone field against the query with its whitespace-trimmed text's
    /// spaces removed.
    Phone,
    /// Phone mode not active and the full-text query non-blank: match the
    /// sanitized full-text query against the full-text index.
    FullText,
    /// Primary query non-blank: substring match on family name, given name,
    /// organization, or residence.
    Substring,
    /// No text predicate at all: filters only, or an unconstrained listing.
    Unfiltered,
}

/// Strategy selection: phone mode first (the flag set and the primary query
/// non-blank), then full-text whenever phone mode is not active and the
/// full-text query is non-blank, then the fallback.
pub open spec fn spec_strategy(req: &SearchRequest) -> Strategy {
    if req.is_phone && !spec_is_blank(req.q@) {
        Strategy::Phone
    } else if !spec_is_blank(req.fts@) {
        Strategy::FullText
    } else if !spec_is_blank(req.q@) {
        Strategy::Substring
    } else {
        Strategy::Unfiltered
    }
}

/// The filter part of the WHERE clause: the exact sex filter, then the
/// residence substring filter, each present only when non-blank.
pub open spec fn spec_filters_sql(req: &SearchRequest) -> Seq<char> {
    "1=1"@ + (if !spec_is_blank(req.sesso@) {
        " AND r.sesso = ? "@
    } else {
        Seq::<char>::empty()
    }) + (if !spec_is_blank(req.residente@) {
        " AND r.residente LIKE ? "@
    } else {
        Seq::<char>::empty()
    })
}

/// The strategy-specific predicate appended after the filters.
pub open spec fn spec_strategy_sql(req: &SearchRequest) -> Seq<char> {
    match spec_strategy(req) {
        Strategy::Phone => " AND r.telefono LIKE ? "@,
        Strategy::FullText => " AND r.id = f.rowid AND records_fts MATCH ? "@,
        Strategy::Substring => " AND ( r.cognome LIKE ? OR r.nome LIKE ? OR r.azienda LIKE ? OR r.residente LIKE ? ) "@,
        Strategy::Unfiltered => Seq::<char>::empty(),
    }
}

/// The whole WHERE clause: filters first, strategy predicate last.
pub open spec fn spec_where_sql(req: &SearchRequest) -> Seq<char> {
    spec_filters_sql(req) + spec_strategy_sql(req)
}

/// The COUNT statement; full-text mode joins the full-text index.
pub open spec fn spec_count_sql(req: &SearchRequest) -> Seq<char> {
    (if spec_strategy(req) is FullText {
        "SELECT COUNT(*) FROM records r JOIN records_fts f ON f.rowid=r.id WHERE "@
    } else {
        "SELECT COUNT(*) FROM records r WHERE "@
    }) + spec_where_sql(req)
}

/// The SELECT statement: the full projection, the same WHERE clause, ordered
/// by ascending identifier, with LIMIT and OFFSET placeholders at the end.
pub open spec fn spec_select_sql(req: &SearchRequest) -> Seq<char> {
    "SELECT r.id, r.telefono, r.idfb, r.nome, r.cognome, r.sesso, r.natoa, r.residente, r.statocivile, r.azienda, r.dataAcc, r.niente, r.niente2 FROM records r"@
        + (if spec_strategy(req) is FullText {
        " JOIN records_fts f ON f.rowid=r.id"@
    } else {
        Seq::<char>::empty()
    }) + " WHERE "@ + spec_where_sql(req) + " ORDER BY r.id LIMIT ? OFFSET ?"@
}

/// The filter parameters, in the order their predicates stand in the clause:
/// the sex code as given, then the trimmed residence in `%` marks.
pub open spec fn spec_filter_params(req: &SearchRequest) -> Seq<ParamModel> {
    (if !spec_is_blank(req.sesso@) {
        seq![ParamModel::Text(req.sesso@)]
    } else {
        Seq::<ParamModel>::empty()
    }) + (if !spec_is_blank(req.residente@) {
        seq![ParamModel::Text("%"@ + spec_trim(req.residente@) + "%"@)]
    } else {
        Seq::<ParamModel>::empty()
    })
}

/// The strategy-specific parameters appended after the filter parameters.
pub open spec fn spec_strategy_params(req: &SearchRequest) -> Seq<ParamModel> {
    match spec_strategy(req) {
        Strategy::Phone => seq![
            ParamModel::Text("%"@ + spec_strip_spaces(spec_trim(req.q@)) + "%"@),
        ],
        Strategy::FullText => seq![ParamModel::Text(spec_sanitize(req.fts@))],
        Strategy::Substring => {
            let like = ParamModel::Text("%"@ + spec_trim(req.q@) + "%"@);
            seq![like, like, like, like]
        },
        Strategy::Unfiltered => Seq::<ParamModel>::empty(),
    }
}

/// The WHERE-clause parameter vector, shared by COUNT and SELECT.
pub open spec fn spec_where_params(req: &SearchRequest) -> Seq<ParamModel> {
    spec_filter_params(req) + spec_strategy_params(req)
}

/// LIMIT: the page size, floored at 1.
pub open spec fn spec_limit(page_size: i64) -> int {
    if page_size < 1 {
        1
    } else {
        page_size as int
    }
}

/// OFFSET: (page floored at 1, minus 1) times the limit.
pub open spec fn spec_offset(page: i64, page_size: i64) -> int {
    (if page < 1 {
        0
    } else {
        page - 1
    }) * spec_limit(page_size)
}

/// The SELECT parameter vector: the WHERE-clause parameters followed by the
/// two pagination values.
pub open spec fn spec_select_params(req: &SearchRequest) -> Seq<ParamModel> {
    spec_where_params(req) + seq![
        ParamModel::Int(spec_limit(req.page_size)),
        ParamModel::Int(spec_offset(req.page, req.page_size)),
    ]
}

/// The offset must fit the machine integer the engine takes; only absurdly
/// large page numbers and sizes fall outside this.
pub open spec fn req_offset_fits(req: &SearchRequest) -> bool {
    spec_offset(req.page, req.page_size) <= i64::MAX
}

/// Everything one request needs to run: the two statements, the shared
/// WHERE-clause parameters, and the pagination values.
pub struct Plan {
    pub count_sql: String,
    pub select_sql: String,
    pub params: Vec<Param>,
    pub limit: i64,
    pub offset: i64,
}

/// The strategy the request selects, as a runtime value.
pub fn strategy_of(req: &SearchRequest) -> (r: Strategy)
    ensures
        r == spec_strategy(req),
{
    if req.is_phone && !is_blank(req.q.as_str()) {
        Strategy::Phone
    } else if !is_blank(req.fts.as_str()) {
        Strategy::FullText
    } else if !is_blank(req.q.as_str()) {
        Strategy::Substring
    } else {
        Strategy::Unfiltered
    }
}

/// Builds the plan for a request: exactly the statements, parameters and
/// pagination values the specification functions above describe.
pub fn build_plan(req: &SearchRequest) -> (plan: Plan)
    requires
        req_offset_fits(req),
    ensures
        plan.count_sql@ == spec_count_sql(req),
        plan.select_sql@ == spec_select_sql(req),
        views_of(plan.params@) == spec_where_params(req),
        plan.limit == spec_limit(req.page_size),
        plan.offset == spec_offset(req.page, req.page_size),
{
    let limit: i64 = if req.page_size < 1 {
        1
    } else {
        req.page_size
    };
    let page0: i64 = if req.page < 1 {
        0
    } else {
        req.page - 1
    };
    proof {
        assert(page0 * limit >= 0) by (nonlinear_arith)
            requires
                page0 >= 0,
                limit >= 1,
        ;
    }
    let offset: i64 = page0 * limit;

    let mut where_sql = String::from_str("1=1");
    let mut params: Vec<Param> = Vec::new();

    if !is_blank(req.sesso.as_str()) {
        where_sql.append(" AND r.sesso = ? ");
        params.push(Param::Text(req.sesso.clone()));
    }
    if !is_blank(req.residente.as_str()) {
        where_sql.append(" AND r.residente LIKE ? ");
        let t = trim(req.residente.as_str());
        params.push(Param::Text(wrap_like(t.as_str())));
    }
    proof {
        assert(where_sql@ =~= spec_filters_sql(req));
        assert(views_of(params@) =~= spec_filter_params(req));
    }

    let strategy = strategy_of(req);
    let join_fts: bool;
    match strategy {
        Strategy::Phone => {
            where_sql.append(" AND r.telefono LIKE ? ");
            let t = trim(req.q.as_str());
            let digits = strip_spaces(t.as_str());
            params.push(Param::Text(wrap_like(digits.as_str())));
            join_fts = false;
        },
        Strategy::FullText => {
            where_sql.append(" AND r.id = f.rowid AND records_fts MATCH ? ");
            params.push(Param::Text(sanitize_match(req.fts.as_str())));
            join_fts = true;
        },
        Strategy::Substring => {
            where_sql.append(
                " AND ( r.cognome LIKE ? OR r.nome LIKE ? OR r.azienda LIKE ? OR r.residente LIKE ? ) ",
            );
            let t = trim(req.q.as_str());
            let like = wrap_like(t.as_str());
            params.push(Param::Text(like.clone()));
            params.push(Param::Text(like.clone()));
            params.push(Param::Text(like.clone()));
            params.push(Param::Text(like));
            join_fts = false;
        },
        Strategy::Unfiltered => {
            join_fts = false;
        },
    }
    proof {
        assert(where_sql@ =~= spec_where_sql(req));
        assert(views_of(params@) =~= spec_where_params(req));
    }

    let count_sql = if join_fts {
        String::from_str("SELECT COUNT(*) FROM records r JOIN records_fts f ON f.rowid=r.id WHERE ")
            .concat(where_sql.as_str())
    } else {
        String::from_str("SELECT COUNT(*) FROM records r WHERE ").concat(where_sql.as_str())
    };
    proof {
        assert(count_sql@ =~= spec_count_sql(req));
    }

    let mut select_sql = String::from_str(
        "SELECT r.id, r.telefono, r.idfb, r.nome, r.cognome, r.sesso, r.natoa, r.residente, r.statocivile, r.azienda, r.dataAcc, r.niente, r.niente2 FROM records r",
    );
    if join_fts {
        select_sql.append(" JOIN records_fts f ON f.rowid=r.id");
    }
    select_sql.append(" WHERE ");
    select_sql.append(where_sql.as_str());
    select_sql.append(" ORDER BY r.id LIMIT ? OFFSET ?");
    proof {
        assert(select_sql@ =~= spec_select_sql(req));
    }

    Plan { count_sql, select_sql, params, limit, offset }
}

/// Law: the COUNT parameter vector is a strict prefix of the SELECT
/// parameter vector; they differ only by the two trailing pagination values,
/// the limit and then the offset.
pub proof fn lemma_count_params_prefix_of_select(req: &SearchRequest)
    ensures
        spec_select_params(req).len() == spec_where_params(req).len() + 2,
        spec_select_params(req).subrange(0, spec_where_params(req).len() as int)
            == spec_where_params(req),
        spec_select_params(req)[spec_where_params(req).len() as int] == ParamModel::Int(
            spec_limit(req.page_size),
        ),
        spec_select_params(req)[spec_where_params(req).len() as int + 1] == ParamModel::Int(
            spec_offset(req.page, req.page_size),
        ),
{
    assert(spec_select_params(req).subrange(0, spec_where_params(req).len() as int)
        =~= spec_where_params(req));
}

/// Law: phone mode takes precedence. With the phone flag set and a non-blank
/// primary query, the phone strategy is selected even when the full-text
/// query is also non-blank, and the WHERE clause holds the phone predicate,
/// never the full-text one.
pub proof fn lemma_phone_precedence(req: &SearchRequest)
    requires
        req.is_phone,
        !spec_is_blank(req.q@),
        !spec_is_blank(req.fts@),
    ensures
        spec_strategy(req) is Phone,
        spec_where_sql(req) == spec_filters_sql(req) + " AND r.telefono LIKE ? "@,
{
}

/// Law: full-text mode is selected exactly when phone mode is not active
/// (the flag clear, or the primary query blank) and the full-text query is
/// non-blank; when neither phone nor full-text mode applies, the fallback is
/// the substring strategy for a non-blank primary query and the unfiltered
/// strategy otherwise.
pub proof fn lemma_full_text_selection(req: &SearchRequest)
    ensures
        spec_strategy(req) is FullText <==> (!(req.is_phone && !spec_is_blank(req.q@))
            && !spec_is_blank(req.fts@)),
        !(spec_strategy(req) is Phone) && !(spec_strategy(req) is FullText) ==> (spec_strategy(
            req,
        ) is Substring <==> !spec_is_blank(req.q@)),
{
}

/// Law: pagination. Pages and page sizes of at least 1 give limit = page
/// size and offset = (page - 1) * page size; a page below 1 is treated as
/// page 1, and a page size below 1 as size 1.
pub proof fn lemma_pagination(page: i64, page_size: i64)
    ensures
        page >= 1 && page_size >= 1 ==> spec_limit(page_size) == page_size && spec_offset(
            page,
            page_size,
        ) == (page - 1) * page_size,
        page < 1 ==> spec_offset(page, page_size) == spec_offset(1, page_size) && spec_offset(
            page,
            page_size,
        ) == 0,
        page_size < 1 ==> spec_limit(page_size) == spec_limit(1),
{
}

} // verus!
