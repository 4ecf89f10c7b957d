//! Paged queries of stored events: for each event's database filter, which
//! table a page reads, which rows qualify, in which order, and how many; and
//! how a stored row becomes an event.
use vstd::prelude::*;
use crate::text::split_on;
use super::pagination::{
    block_height_page, get_pagination_params, involved_accounts_condition, split_comma_list,
    time_page, time_page_spec, block_height_page_spec, InvolvedAccounts, PageBound, PaginationBy, PaginationParameters,
    PaginationTimestamp, PaginationValues, SortOrder, pagination_values_spec,
};
use super::potlock::{DbPotlockPotDonationFilter, PotlockPotDonationEventData};
use super::price::{DbPricePoolFilter, PricePoolEventData};
use super::log::{DbLogTextFilter, LogTextEventData};
use super::nft::{DbNftMintFilter, NftMintEventData};
use super::tps::{BlockInfoEventData, DbBlockInfoFilter};
use super::ft::{DbFtTransferFilter, FtTransferEventData};

verus! {

broadcast use vstd::std_specs::vec::group_vec_axioms;

/// A condition that a row must meet.
#[derive(Debug)]
pub enum Condition {
    /// The text column holds the value.
    TextIs { column: String, value: String },
    /// The integer column holds the value.
    IntIs { column: String, value: i64 },
    /// The amount column holds the value.
    AmountIs { column: String, value: u128 },
    /// The amount column holds at least the value.
    AmountAtLeast { column: String, value: u128 },
    /// One of the two columns holds the value.
    EitherColumnIs { first: String, second: String, value: String },
    /// The two columns hold the two values, in either order.
    ColumnsArePair { first: String, second: String, a: String, b: String },
    /// Every value is held by one of the two columns.
    ColumnsHoldAll { first: String, second: String, values: Vec<String> },
    /// No row qualifies.
    Never,
}

/// The content of a condition.
pub enum ConditionView {
    TextIs(Seq<char>, Seq<char>),
    IntIs(Seq<char>, i64),
    AmountIs(Seq<char>, u128),
    AmountAtLeast(Seq<char>, u128),
    EitherColumnIs(Seq<char>, Seq<char>, Seq<char>),
    ColumnsArePair(Seq<char>, Seq<char>, Seq<char>, Seq<char>),
    ColumnsHoldAll(Seq<char>, Seq<char>, Seq<Seq<char>>),
    Never,
}

/// The texts of a list of strings.
pub open spec fn texts(v: Seq<String>) -> Seq<Seq<char>> {
    v.map_values(|s: String| s@)
}

impl View for Condition {
    type V = ConditionView;

    open spec fn view(&self) -> ConditionView {
        match self {
            Condition::TextIs { column, value } => ConditionView::TextIs(column@, value@),
            Condition::IntIs { column, value } => ConditionView::IntIs(column@, *value),
            Condition::AmountIs { column, value } => ConditionView::AmountIs(column@, *value),
            Condition::AmountAtLeast { column, value } => ConditionView::AmountAtLeast(column@, *value),
            Condition::EitherColumnIs { first, second, value } => ConditionView::EitherColumnIs(
                first@,
                second@,
                value@,
            ),
            Condition::ColumnsArePair { first, second, a, b } => ConditionView::ColumnsArePair(
                first@,
                second@,
                a@,
                b@,
            ),
            Condition::ColumnsHoldAll { first, second, values } => ConditionView::ColumnsHoldAll(
                first@,
                second@,
                texts(values@),
            ),
            Condition::Never => ConditionView::Never,
        }
    }
}

/// The value that bounds a page.
#[derive(Debug, Clone, Copy, PartialEq, Eq, Structural)]
pub enum BoundValue {
    Nothing,
    Timestamp(PaginationTimestamp),
    BlockHeight(i64),
    Id(i32),
}

/// A paged query: the table, the bound of the page and its value, the
/// column and direction of the order, the number of rows, and the
/// conditions that every row meets.
#[derive(Debug)]
pub struct PageQuery {
    pub table: String,
    pub bound: PageBound,
    pub bound_value: BoundValue,
    pub order_column: String,
    pub order: SortOrder,
    pub limit: i64,
    pub conditions: Vec<Condition>,
}

/// The content of a paged query.
pub struct PageQueryView {
    pub table: Seq<char>,
    pub bound: PageBound,
    pub bound_value: BoundValue,
    pub order_column: Seq<char>,
    pub order: SortOrder,
    pub limit: i64,
    pub conditions: Seq<ConditionView>,
}

/// The contents of a list of conditions.
pub open spec fn conditions_view(v: Seq<Condition>) -> Seq<ConditionView> {
    v.map_values(|c: Condition| c@)
}

impl View for PageQuery {
    type V = PageQueryView;

    open spec fn view(&self) -> PageQueryView {
        PageQueryView {
            table: self.table@,
            bound: self.bound,
            bound_value: self.bound_value,
            order_column: self.order_column@,
            order: self.order,
            limit: self.limit,
            conditions: conditions_view(self.conditions@),
        }
    }
}

/// The value that a bound compares with: the page's time (or the time of
/// its block, which has to be looked up), its block height, or its id.
pub open spec fn bound_value_spec(bound: PageBound, pagination: PaginationParameters) -> BoundValue {
    let values = pagination_values_spec(pagination);
    match bound {
        PageBound::TimestampBefore | PageBound::TimestampAfter => BoundValue::Timestamp(
            values.timestamp,
        ),
        PageBound::BlockHeightBefore | PageBound::BlockHeightAfter => match pagination.pagination_by {
            PaginationBy::BeforeBlockHeight { block_height }
            | PaginationBy::AfterBlockHeight { block_height } => BoundValue::BlockHeight(
                block_height as i64,
            ),
            _ => BoundValue::Nothing,
        },
        PageBound::IdBefore | PageBound::IdAfter => match values.id {
            Some(id) => BoundValue::Id(id),
            None => BoundValue::Nothing,
        },
        PageBound::Unbounded => BoundValue::Nothing,
    }
}

fn bound_value(bound: PageBound, pagination: &PaginationParameters, values: &PaginationValues) -> (r: BoundValue)
    requires
        *values == pagination_values_spec(*pagination),
    ensures
        r == bound_value_spec(bound, *pagination),
{
    match bound {
        PageBound::TimestampBefore | PageBound::TimestampAfter => BoundValue::Timestamp(
            values.timestamp,
        ),
        PageBound::BlockHeightBefore | PageBound::BlockHeightAfter => match pagination.pagination_by {
            PaginationBy::BeforeBlockHeight { block_height }
            | PaginationBy::AfterBlockHeight { block_height } => BoundValue::BlockHeight(
                block_height as i64,
            ),
            _ => BoundValue::Nothing,
        },
        PageBound::IdBefore | PageBound::IdAfter => match values.id {
            Some(id) => BoundValue::Id(id),
            None => BoundValue::Nothing,
        },
        PageBound::Unbounded => BoundValue::Nothing,
    }
}

/// The condition that a wanted text puts on a column: none when no text is
/// wanted.
pub open spec fn text_is(column: Seq<char>, wanted: Option<String>) -> Seq<ConditionView> {
    match wanted {
        Some(v) => seq![ConditionView::TextIs(column, v@)],
        None => Seq::empty(),
    }
}

/// The condition that a wanted integer puts on a column.
pub open spec fn int_is(column: Seq<char>, wanted: Option<i64>) -> Seq<ConditionView> {
    match wanted {
        Some(v) => seq![ConditionView::IntIs(column, v)],
        None => Seq::empty(),
    }
}

/// The condition that a wanted amount puts on a column.
pub open spec fn amount_is(column: Seq<char>, wanted: Option<u128>) -> Seq<ConditionView> {
    match wanted {
        Some(v) => seq![ConditionView::AmountIs(column, v)],
        None => Seq::empty(),
    }
}

/// The condition that a least amount puts on a column.
pub open spec fn amount_at_least(column: Seq<char>, least: Option<u128>) -> Seq<ConditionView> {
    match least {
        Some(v) => seq![ConditionView::AmountAtLeast(column, v)],
        None => Seq::empty(),
    }
}

/// The condition that a comma-separated list of involved accounts puts on a
/// sender and a receiver column: one account is either of them, two accounts
/// are the pair in either order, more accounts match no row.
pub open spec fn involved(first: Seq<char>, second: Seq<char>, list: Option<String>) -> Seq<ConditionView> {
    match list {
        None => Seq::empty(),
        Some(text) => {
            let ids = split_on(text@, ',');
            if ids.len() == 1 {
                seq![ConditionView::EitherColumnIs(first, second, ids[0])]
            } else if ids.len() == 2 {
                seq![ConditionView::ColumnsArePair(first, second, ids[0], ids[1])]
            } else {
                seq![ConditionView::Never]
            }
        },
    }
}

/// The condition that a comma-separated list of tokens puts on two token
/// columns: each token is one of them.
pub open spec fn tokens_held(first: Seq<char>, second: Seq<char>, list: Option<String>) -> Seq<ConditionView> {
    match list {
        None => Seq::empty(),
        Some(text) => seq![ConditionView::ColumnsHoldAll(first, second, split_on(text@, ','))],
    }
}

fn text_of(s: &str) -> (r: String)
    ensures
        r@ == s@,
{
    String::from_str(s)
}

fn push_condition(conds: &mut Vec<Condition>, c: Condition)
    ensures
        conditions_view(final(conds)@) == conditions_view(old(conds)@) + seq![c@],
{
    let ghost before = conds@;
    conds.push(c);
    assert(conditions_view(conds@) =~= conditions_view(before) + seq![c@]);
}

fn push_text_is(conds: &mut Vec<Condition>, column: &str, wanted: &Option<String>)
    ensures
        conditions_view(final(conds)@) == conditions_view(old(conds)@) + text_is(column@, *wanted),
{
    match wanted {
        Some(v) => push_condition(conds, Condition::TextIs { column: text_of(column), value: v.clone() }),
        None => {
            assert(conditions_view(conds@) =~= conditions_view(conds@) + Seq::<ConditionView>::empty());
        },
    }
}

fn push_int_is(conds: &mut Vec<Condition>, column: &str, wanted: Option<i64>)
    ensures
        conditions_view(final(conds)@) == conditions_view(old(conds)@) + int_is(column@, wanted),
{
    match wanted {
        Some(v) => push_condition(conds, Condition::IntIs { column: text_of(column), value: v }),
        None => {
            assert(conditions_view(conds@) =~= conditions_view(conds@) + Seq::<ConditionView>::empty());
        },
    }
}

fn push_amount_is(conds: &mut Vec<Condition>, column: &str, wanted: Option<u128>)
    ensures
        conditions_view(final(conds)@) == conditions_view(old(conds)@) + amount_is(column@, wanted),
{
    match wanted {
        Some(v) => push_condition(conds, Condition::AmountIs { column: text_of(column), value: v }),
        None => {
            assert(conditions_view(conds@) =~= conditions_view(conds@) + Seq::<ConditionView>::empty());
        },
    }
}

fn push_amount_at_least(conds: &mut Vec<Condition>, column: &str, least: Option<u128>)
    ensures
        conditions_view(final(conds)@) == conditions_view(old(conds)@) + amount_at_least(column@, least),
{
    match least {
        Some(v) => push_condition(conds, Condition::AmountAtLeast { column: text_of(column), value: v }),
        None => {
            assert(conditions_view(conds@) =~= conditions_view(conds@) + Seq::<ConditionView>::empty());
        },
    }
}

fn push_involved(conds: &mut Vec<Condition>, first: &str, second: &str, list: &Option<String>)
    ensures
        conditions_view(final(conds)@) == conditions_view(old(conds)@) + involved(first@, second@, *list),
{
    proof {
        if let Some(text) = list {
            crate::text::lemma_split_nonempty(text@, ',');
        }
    }
    match involved_accounts_condition(list) {
        InvolvedAccounts::Any => {
            assert(conditions_view(conds@) =~= conditions_view(conds@) + Seq::<ConditionView>::empty());
        },
        InvolvedAccounts::Either(a) => push_condition(
            conds,
            Condition::EitherColumnIs { first: text_of(first), second: text_of(second), value: a },
        ),
        InvolvedAccounts::Between(a, b) => push_condition(
            conds,
            Condition::ColumnsArePair { first: text_of(first), second: text_of(second), a, b },
        ),
        InvolvedAccounts::Never => push_condition(conds, Condition::Never),
    }
}

fn push_tokens_held(conds: &mut Vec<Condition>, first: &str, second: &str, list: &Option<String>)
    ensures
        conditions_view(final(conds)@) == conditions_view(old(conds)@) + tokens_held(first@, second@, *list),
{
    match list {
        Some(text) => {
            let values = split_comma_list(text.as_str());
            assert(texts(values@) =~= split_on(text@, ','));
            push_condition(
                conds,
                Condition::ColumnsHoldAll { first: text_of(first), second: text_of(second), values },
            );
        },
        None => {
            assert(conditions_view(conds@) =~= conditions_view(conds@) + Seq::<ConditionView>::empty());
        },
    }
}

// ---------------------------------------------------------------------------
// The queries
// ---------------------------------------------------------------------------

/// A paged query on a table, ordered by a column, bounded as `bound_order`
/// says, with the given conditions.
pub open spec fn page_query_spec(
    table: Seq<char>,
    order_column: Seq<char>,
    bound_order: (PageBound, SortOrder),
    pagination: PaginationParameters,
    conditions: Seq<ConditionView>,
) -> PageQueryView {
    PageQueryView {
        table,
        bound: bound_order.0,
        bound_value: bound_value_spec(bound_order.0, pagination),
        order_column,
        order: bound_order.1,
        limit: pagination.limit as i64,
        conditions,
    }
}

fn page_query(
    table: &str,
    order_column: &str,
    bound_order: (PageBound, SortOrder),
    pagination: &PaginationParameters,
    conditions: Vec<Condition>,
) -> (r: PageQuery)
    ensures
        r@ == page_query_spec(table@, order_column@, bound_order, *pagination, conditions_view(conditions@)),
{
    let values = get_pagination_params(pagination);
    let (bound, order) = bound_order;
    PageQuery {
        table: text_of(table),
        bound,
        bound_value: bound_value(bound, pagination, &values),
        order_column: text_of(order_column),
        order,
        limit: values.limit,
        conditions,
    }
}

/// The query of a page of pot donations: ordered by time, a block height
/// bound is the block's time.
pub open spec fn pot_donation_query_spec(filter: DbPotlockPotDonationFilter, pagination: PaginationParameters) -> PageQueryView {
    page_query_spec(
        "potlock_pot_donation"@,
        "timestamp"@,
        time_page_spec(pagination.pagination_by),
        pagination,
        text_is("pot_id"@, filter.pot_id) + text_is("donor_id"@, filter.donor_id) + text_is(
            "referrer_id"@,
            filter.referrer_id,
        ),
    )
}

impl DbPotlockPotDonationFilter {
    /// The query of a page of pot donations.
    pub fn page_query(&self, pagination: &PaginationParameters) -> (r: PageQuery)
        ensures
            r@ == pot_donation_query_spec(*self, *pagination),
    {
        let mut conds: Vec<Condition> = Vec::new();
        push_text_is(&mut conds, "pot_id", &self.pot_id);
        push_text_is(&mut conds, "donor_id", &self.donor_id);
        push_text_is(&mut conds, "referrer_id", &self.referrer_id);
        assert(conditions_view(Seq::<Condition>::empty()) =~= Seq::<ConditionView>::empty());
        assert(Seq::<ConditionView>::empty() + text_is("pot_id"@, self.pot_id) =~= text_is("pot_id"@, self.pot_id));
        page_query("potlock_pot_donation", "timestamp", time_page(pagination.pagination_by), pagination, conds)
    }
}

/// The query of a page of pool prices: ordered by id, a block height bound
/// compares heights.
pub open spec fn price_pool_query_spec(filter: DbPricePoolFilter, pagination: PaginationParameters) -> PageQueryView {
    page_query_spec(
        "price_pool"@,
        "id"@,
        block_height_page_spec(pagination.pagination_by),
        pagination,
        text_is("pool_id"@, filter.pool_id) + tokens_held(
            "token0"@,
            "token1"@,
            filter.involved_token_account_ids,
        ),
    )
}

impl DbPricePoolFilter {
    /// The query of a page of pool prices.
    pub fn page_query(&self, pagination: &PaginationParameters) -> (r: PageQuery)
        ensures
            r@ == price_pool_query_spec(*self, *pagination),
    {
        let mut conds: Vec<Condition> = Vec::new();
        push_text_is(&mut conds, "pool_id", &self.pool_id);
        push_tokens_held(&mut conds, "token0", "token1", &self.involved_token_account_ids);
        assert(conditions_view(Seq::<Condition>::empty()) =~= Seq::<ConditionView>::empty());
        assert(Seq::<ConditionView>::empty() + text_is("pool_id"@, self.pool_id) =~= text_is("pool_id"@, self.pool_id));
        page_query("price_pool", "id", block_height_page(pagination.pagination_by), pagination, conds)
    }
}

/// The query of a page of log lines: ordered by id, a block height bound
/// compares heights.
pub open spec fn log_text_query_spec(filter: DbLogTextFilter, pagination: PaginationParameters) -> PageQueryView {
    page_query_spec(
        "log_text"@,
        "id"@,
        block_height_page_spec(pagination.pagination_by),
        pagination,
        text_is("account_id"@, filter.account_id) + text_is("predecessor_id"@, filter.predecessor_id),
    )
}

impl DbLogTextFilter {
    /// The query of a page of log lines.
    pub fn page_query(&self, pagination: &PaginationParameters) -> (r: PageQuery)
        ensures
            r@ == log_text_query_spec(*self, *pagination),
    {
        let mut conds: Vec<Condition> = Vec::new();
        push_text_is(&mut conds, "account_id", &self.account_id);
        push_text_is(&mut conds, "predecessor_id", &self.predecessor_id);
        assert(conditions_view(Seq::<Condition>::empty()) =~= Seq::<ConditionView>::empty());
        assert(Seq::<ConditionView>::empty() + text_is("account_id"@, self.account_id) =~= text_is("account_id"@, self.account_id));
        page_query("log_text", "id", block_height_page(pagination.pagination_by), pagination, conds)
    }
}

/// The query of a page of NFT mints: ordered by id, a block height bound
/// compares heights.
pub open spec fn nft_mint_query_spec(filter: DbNftMintFilter, pagination: PaginationParameters) -> PageQueryView {
    page_query_spec(
        "nft_mint"@,
        "id"@,
        block_height_page_spec(pagination.pagination_by),
        pagination,
        text_is("contract_id"@, filter.contract_id) + text_is("owner_id"@, filter.owner_id),
    )
}

impl DbNftMintFilter {
    /// The query of a page of NFT mints.
    pub fn page_query(&self, pagination: &PaginationParameters) -> (r: PageQuery)
        ensures
            r@ == nft_mint_query_spec(*self, *pagination),
    {
        let mut conds: Vec<Condition> = Vec::new();
        push_text_is(&mut conds, "contract_id", &self.contract_id);
        push_text_is(&mut conds, "owner_id", &self.owner_id);
        assert(conditions_view(Seq::<Condition>::empty()) =~= Seq::<ConditionView>::empty());
        assert(Seq::<ConditionView>::empty() + text_is("contract_id"@, self.contract_id) =~= text_is("contract_id"@, self.contract_id));
        page_query("nft_mint", "id", block_height_page(pagination.pagination_by), pagination, conds)
    }
}

/// The query of a page of blocks: ordered by id, a block height bound
/// compares heights; testnet blocks are kept in a table of their own.
pub open spec fn block_info_query_spec(filter: DbBlockInfoFilter, pagination: PaginationParameters, testnet: bool) -> PageQueryView {
    page_query_spec(
        if testnet {
            "block_info_testnet"@
        } else {
            "block_info"@
        },
        "id"@,
        block_height_page_spec(pagination.pagination_by),
        pagination,
        int_is(
            "block_height"@,
            match filter.block_height {
                Some(h) => Some(h as i64),
                None => None,
            },
        ) + text_is("block_hash"@, filter.block_hash) + text_is(
            "block_producer"@,
            filter.block_producer,
        ),
    )
}

impl DbBlockInfoFilter {
    /// The query of a page of blocks.
    pub fn page_query(&self, pagination: &PaginationParameters, testnet: bool) -> (r: PageQuery)
        ensures
            r@ == block_info_query_spec(*self, *pagination, testnet),
    {
        let mut conds: Vec<Condition> = Vec::new();
        let target = match self.block_height {
            Some(h) => Some(h as i64),
            None => None,
        };
        push_int_is(&mut conds, "block_height", target);
        push_text_is(&mut conds, "block_hash", &self.block_hash);
        push_text_is(&mut conds, "block_producer", &self.block_producer);
        assert(conditions_view(Seq::<Condition>::empty()) =~= Seq::<ConditionView>::empty());
        assert(Seq::<ConditionView>::empty() + int_is("block_height"@, target) =~= int_is("block_height"@, target));
        let table = if testnet {
            "block_info_testnet"
        } else {
            "block_info"
        };
        page_query(table, "id", block_height_page(pagination.pagination_by), pagination, conds)
    }
}

/// The query of a page of FT transfers: ordered by id, a block height bound
/// is the block's time.
pub open spec fn ft_transfer_query_spec(filter: DbFtTransferFilter, pagination: PaginationParameters) -> PageQueryView {
    page_query_spec(
        "ft_transfer"@,
        "id"@,
        time_page_spec(pagination.pagination_by),
        pagination,
        text_is("token_id"@, filter.token_id) + text_is("old_owner_id"@, filter.old_owner_id)
            + text_is("new_owner_id"@, filter.new_owner_id) + amount_is("amount"@, filter.amount)
            + involved("old_owner_id"@, "new_owner_id"@, filter.involved_account_ids)
            + amount_at_least("amount"@, filter.min_amount),
    )
}

impl DbFtTransferFilter {
    /// The query of a page of FT transfers.
    pub fn page_query(&self, pagination: &PaginationParameters) -> (r: PageQuery)
        ensures
            r@ == ft_transfer_query_spec(*self, *pagination),
    {
        let mut conds: Vec<Condition> = Vec::new();
        push_text_is(&mut conds, "token_id", &self.token_id);
        push_text_is(&mut conds, "old_owner_id", &self.old_owner_id);
        push_text_is(&mut conds, "new_owner_id", &self.new_owner_id);
        push_amount_is(&mut conds, "amount", self.amount);
        push_involved(&mut conds, "old_owner_id", "new_owner_id", &self.involved_account_ids);
        push_amount_at_least(&mut conds, "amount", self.min_amount);
        assert(conditions_view(Seq::<Condition>::empty()) =~= Seq::<ConditionView>::empty());
        assert(Seq::<ConditionView>::empty() + text_is("token_id"@, self.token_id) =~= text_is("token_id"@, self.token_id));
        page_query("ft_transfer", "id", time_page(pagination.pagination_by), pagination, conds)
    }
}

// ---------------------------------------------------------------------------
// Stored rows
// ---------------------------------------------------------------------------

/// A stored amount: the number when it fits in a `u128`, zero otherwise.
pub open spec fn stored_amount(a: Option<u128>) -> u128 {
    match a {
        Some(x) => x,
        None => 0,
    }
}

fn amount_of(a: Option<u128>) -> (r: u128)
    ensures
        r == stored_amount(a),
{
    match a {
        Some(x) => x,
        None => 0,
    }
}

fn optional_amount_of(a: Option<Option<u128>>) -> (r: Option<u128>)
    ensures
        r == match a {
            Some(x) => Some(stored_amount(x)),
            None => None,
        },
{
    match a {
        Some(x) => Some(amount_of(x)),
        None => None,
    }
}

/// A stored pot donation. Each amount is the stored number when it fits in
/// a `u128` (`None` when it does not); `timestamp_nanos` is the time of the
/// block, `donated_at_millis` that of the donation.
#[derive(Debug)]
pub struct PotDonationRow {
    pub id: i64,
    pub transaction_id: String,
    pub receipt_id: String,
    pub block_height: i64,
    pub timestamp_nanos: i64,
    pub donation_id: i64,
    pub pot_id: String,
    pub donor_id: String,
    pub total_amount: Option<u128>,
    pub net_amount: Option<u128>,
    pub message: Option<String>,
    pub donated_at_millis: i64,
    pub protocol_fee: Option<u128>,
    pub referrer_id: Option<String>,
    pub referrer_fee: Option<Option<u128>>,
    pub chef_id: Option<String>,
    pub chef_fee: Option<Option<u128>>,
}

/// The event of a stored pot donation, with its id; amounts that do not fit
/// in a `u128` are zero.
pub fn pot_donation_from_row(row: PotDonationRow) -> (r: (u64, PotlockPotDonationEventData))
    ensures
        r.0 == row.id as u64,
        r.1 == (PotlockPotDonationEventData {
            donation_id: row.donation_id as u64,
            pot_id: row.pot_id,
            donor_id: row.donor_id,
            total_amount: stored_amount(row.total_amount),
            net_amount: stored_amount(row.net_amount),
            message: row.message,
            donated_at: row.donated_at_millis,
            protocol_fee: stored_amount(row.protocol_fee),
            referrer_id: row.referrer_id,
            referrer_fee: match row.referrer_fee {
                Some(x) => Some(stored_amount(x)),
                None => None,
            },
            chef_id: row.chef_id,
            chef_fee: match row.chef_fee {
                Some(x) => Some(stored_amount(x)),
                None => None,
            },
            transaction_id: row.transaction_id,
            receipt_id: row.receipt_id,
            block_height: row.block_height as u64,
            block_timestamp_nanosec: row.timestamp_nanos as u128,
        }),
{
    let id = row.id as u64;
    let event = PotlockPotDonationEventData {
        donation_id: row.donation_id as u64,
        pot_id: row.pot_id,
        donor_id: row.donor_id,
        total_amount: amount_of(row.total_amount),
        net_amount: amount_of(row.net_amount),
        message: row.message,
        donated_at: row.donated_at_millis,
        protocol_fee: amount_of(row.protocol_fee),
        referrer_id: row.referrer_id,
        referrer_fee: optional_amount_of(row.referrer_fee),
        chef_id: row.chef_id,
        chef_fee: optional_amount_of(row.chef_fee),
        transaction_id: row.transaction_id,
        receipt_id: row.receipt_id,
        block_height: row.block_height as u64,
        block_timestamp_nanosec: row.timestamp_nanos as u128,
    };
    (id, event)
}

/// A stored pool price; the prices are decimal texts.
#[derive(Debug)]
pub struct PricePoolRow {
    pub id: i64,
    pub timestamp_nanos: i64,
    pub block_height: i64,
    pub pool_id: String,
    pub token0: String,
    pub token1: String,
    pub token0_in_1_token1: String,
    pub token1_in_1_token0: String,
}

/// The event of a stored pool price, with its id.
pub fn price_pool_from_row(row: PricePoolRow) -> (r: (u64, PricePoolEventData))
    ensures
        r.0 == row.id as u64,
        r.1 == (PricePoolEventData {
            block_height: row.block_height as u64,
            pool_id: row.pool_id,
            token0: row.token0,
            token1: row.token1,
            token0_in_1_token1: row.token0_in_1_token1,
            token1_in_1_token0: row.token1_in_1_token0,
            timestamp_nanosec: row.timestamp_nanos as u128,
        }),
{
    (
        row.id as u64,
        PricePoolEventData {
            block_height: row.block_height as u64,
            pool_id: row.pool_id,
            token0: row.token0,
            token1: row.token1,
            token0_in_1_token1: row.token0_in_1_token1,
            token1_in_1_token0: row.token1_in_1_token0,
            timestamp_nanosec: row.timestamp_nanos as u128,
        },
    )
}

/// A stored log line.
#[derive(Debug)]
pub struct LogTextRow {
    pub id: i64,
    pub timestamp_nanos: i64,
    pub transaction_id: String,
    pub receipt_id: String,
    pub block_height: i64,
    pub account_id: String,
    pub predecessor_id: String,
    pub log_text: String,
}

/// The event of a stored log line, with its id.
pub fn log_text_from_row(row: LogTextRow) -> (r: (u64, LogTextEventData))
    ensures
        r.0 == row.id as u64,
        r.1 == (LogTextEventData {
            block_height: row.block_height as u64,
            block_timestamp_nanosec: row.timestamp_nanos as u128,
            transaction_id: row.transaction_id,
            receipt_id: row.receipt_id,
            account_id: row.account_id,
            predecessor_id: row.predecessor_id,
            log_text: row.log_text,
        }),
{
    (
        row.id as u64,
        LogTextEventData {
            block_height: row.block_height as u64,
            block_timestamp_nanosec: row.timestamp_nanos as u128,
            transaction_id: row.transaction_id,
            receipt_id: row.receipt_id,
            account_id: row.account_id,
            predecessor_id: row.predecessor_id,
            log_text: row.log_text,
        },
    )
}

/// A stored NFT mint.
#[derive(Debug)]
pub struct NftMintRow {
    pub id: i64,
    pub timestamp_nanos: i64,
    pub block_height: i64,
    pub contract_id: String,
    pub owner_id: String,
    pub token_ids: Vec<String>,
    pub memo: Option<String>,
    pub transaction_id: String,
    pub receipt_id: String,
}

/// The event of a stored NFT mint, with its id.
pub fn nft_mint_from_row(row: NftMintRow) -> (r: (u64, NftMintEventData))
    ensures
        r.0 == row.id as u64,
        r.1 == (NftMintEventData {
            owner_id: row.owner_id,
            token_ids: row.token_ids,
            memo: row.memo,
            transaction_id: row.transaction_id,
            receipt_id: row.receipt_id,
            block_height: row.block_height as u64,
            block_timestamp_nanosec: row.timestamp_nanos as u128,
            contract_id: row.contract_id,
        }),
{
    (
        row.id as u64,
        NftMintEventData {
            owner_id: row.owner_id,
            token_ids: row.token_ids,
            memo: row.memo,
            transaction_id: row.transaction_id,
            receipt_id: row.receipt_id,
            block_height: row.block_height as u64,
            block_timestamp_nanosec: row.timestamp_nanos as u128,
            contract_id: row.contract_id,
        },
    )
}

/// A stored block.
#[derive(Debug)]
pub struct BlockInfoRow {
    pub id: i64,
    pub timestamp_nanos: i64,
    pub block_height: i64,
    pub block_hash: String,
    pub block_producer: String,
    pub transaction_count: i64,
    pub receipt_count: i64,
}

/// The event of a stored block, with its id.
pub fn block_info_from_row(row: BlockInfoRow) -> (r: (u64, BlockInfoEventData))
    ensures
        r.0 == row.id as u64,
        r.1 == (BlockInfoEventData {
            block_height: row.block_height as u64,
            block_timestamp_nanosec: row.timestamp_nanos as u128,
            block_hash: row.block_hash,
            block_producer: row.block_producer,
            transaction_count: row.transaction_count as u64,
            receipt_count: row.receipt_count as u64,
        }),
{
    (
        row.id as u64,
        BlockInfoEventData {
            block_height: row.block_height as u64,
            block_timestamp_nanosec: row.timestamp_nanos as u128,
            block_hash: row.block_hash,
            block_producer: row.block_producer,
            transaction_count: row.transaction_count as u64,
            receipt_count: row.receipt_count as u64,
        },
    )
}

/// A stored FT transfer; the amount is the stored number when it fits in a
/// `u128` (`None` when it does not).
#[derive(Debug)]
pub struct FtTransferRow {
    pub id: i64,
    pub timestamp_nanos: i64,
    pub block_height: i64,
    pub token_id: String,
    pub old_owner_id: String,
    pub new_owner_id: String,
    pub amount: Option<u128>,
    pub memo: Option<String>,
    pub transaction_id: String,
    pub receipt_id: String,
}

/// The event of a stored FT transfer, with its id; an amount that does not
/// fit in a `u128` is zero.
pub fn ft_transfer_from_row(row: FtTransferRow) -> (r: (u64, FtTransferEventData))
    ensures
        r.0 == row.id as u64,
        r.1 == (FtTransferEventData {
            old_owner_id: row.old_owner_id,
            new_owner_id: row.new_owner_id,
            amount: stored_amount(row.amount),
            memo: row.memo,
            token_id: row.token_id,
            transaction_id: row.transaction_id,
            receipt_id: row.receipt_id,
            block_height: row.block_height as u64,
            block_timestamp_nanosec: row.timestamp_nanos as u128,
        }),
{
    (
        row.id as u64,
        FtTransferEventData {
            old_owner_id: row.old_owner_id,
            new_owner_id: row.new_owner_id,
            amount: amount_of(row.amount),
            memo: row.memo,
            token_id: row.token_id,
            transaction_id: row.transaction_id,
            receipt_id: row.receipt_id,
            block_height: row.block_height as u64,
            block_timestamp_nanosec: row.timestamp_nanos as u128,
        },
    )
}

/// The page request reads backwards in time: before a point, or the newest.
pub open spec fn reads_backwards(by: PaginationBy) -> bool {
    by is BeforeTimestamp || by is BeforeBlockHeight || by is BeforeId || by is Newest
}

/// A page that reads backwards lists its events newest first, one that reads
/// forwards (after a point, or the oldest) oldest first, for every table;
/// a page before a point is bounded from above, one after a point from
/// below, and the newest and oldest pages are not bounded.
pub proof fn law_pages_read_in_their_direction(by: PaginationBy)
    ensures
        reads_backwards(by) ==> time_page_spec(by).1 == SortOrder::Descending
            && block_height_page_spec(by).1 == SortOrder::Descending,
        !reads_backwards(by) ==> time_page_spec(by).1 == SortOrder::Ascending
            && block_height_page_spec(by).1 == SortOrder::Ascending,
        (by is BeforeTimestamp || by is BeforeBlockHeight) ==> time_page_spec(by).0
            == PageBound::TimestampBefore,
        (by is AfterTimestamp || by is AfterBlockHeight) ==> time_page_spec(by).0
            == PageBound::TimestampAfter,
        by is BeforeTimestamp ==> block_height_page_spec(by).0 == PageBound::TimestampBefore,
        by is AfterTimestamp ==> block_height_page_spec(by).0 == PageBound::TimestampAfter,
        by is BeforeBlockHeight ==> block_height_page_spec(by).0 == PageBound::BlockHeightBefore,
        by is AfterBlockHeight ==> block_height_page_spec(by).0 == PageBound::BlockHeightAfter,
        by is BeforeId ==> time_page_spec(by).0 == PageBound::IdBefore
            && block_height_page_spec(by).0 == PageBound::IdBefore,
        by is AfterId ==> time_page_spec(by).0 == PageBound::IdAfter
            && block_height_page_spec(by).0 == PageBound::IdAfter,
        (by is Newest || by is Oldest) ==> time_page_spec(by).0 == PageBound::Unbounded
            && block_height_page_spec(by).0 == PageBound::Unbounded,
{
}

/// Every paged query of stored events lists a page that reads backwards
/// newest first and one that reads forwards oldest first, reads as many rows
/// as the page asks for, and compares its bound with the page's own point.
pub proof fn law_page_queries_follow_the_page(
    pot: DbPotlockPotDonationFilter,
    price: DbPricePoolFilter,
    log: DbLogTextFilter,
    nft: DbNftMintFilter,
    block: DbBlockInfoFilter,
    ft: DbFtTransferFilter,
    p: PaginationParameters,
    testnet: bool,
)
    ensures
        ({
            let qs = seq![
                pot_donation_query_spec(pot, p),
                price_pool_query_spec(price, p),
                log_text_query_spec(log, p),
                nft_mint_query_spec(nft, p),
                block_info_query_spec(block, p, testnet),
                ft_transfer_query_spec(ft, p),
            ];
            forall|i: int|
                0 <= i < qs.len() ==> {
                    &&& (#[trigger] qs[i]).order == (if reads_backwards(p.pagination_by) {
                        SortOrder::Descending
                    } else {
                        SortOrder::Ascending
                    })
                    &&& qs[i].limit == p.limit as i64
                    &&& (p.pagination_by matches PaginationBy::BeforeId { id } ==> qs[i].bound
                        == PageBound::IdBefore && qs[i].bound_value == BoundValue::Id(id as i32))
                    &&& (p.pagination_by matches PaginationBy::AfterId { id } ==> qs[i].bound
                        == PageBound::IdAfter && qs[i].bound_value == BoundValue::Id(id as i32))
                }
        }),
{
    law_pages_read_in_their_direction(p.pagination_by);
}

} // verus!
