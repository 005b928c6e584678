//! What holds of every attempt.

use crate::accounts::{Account, AccountSet, ACCOUNT_COUNT};
use crate::args::CreationRequest;
use crate::boundary::visible;
use crate::codec::text_frame;
use crate::error::{ProvisionError, Status, INCORRECT_PROGRAM_ID};
use crate::instruction::TOKEN_PROGRAM_ID;
use crate::provision::{
    allocation, allocation_call, attachment, attachment_call, initialization,
    initialization_call, ActionView, Event, ProvisionerView, Stage, StepView,
};
use vstd::prelude::*;

verus! {

/// The four answers an attempt can receive, in the order it asks for them.
/// An answer that is never asked for plays no part.
pub struct Reports {
    pub rent_minimum: Result<u64, Status>,
    pub allocated: Result<(), Status>,
    pub initialized: Result<(), Status>,
    pub attached: Result<(), Status>,
}

/// A whole attempt: the calls it issued, in order, and how it ended.
pub struct Run {
    pub issued: Seq<ActionView>,
    pub outcome: Result<(), ProvisionError>,
}

/// An attempt as it is opened: nothing asked yet but the budget.
pub open spec fn opening(request: CreationRequest, accounts: AccountSet) -> ProvisionerView {
    ProvisionerView { request, accounts, stage: Stage::Budgeting }
}

/// The attempt that the protocol makes of the given answers.
pub open spec fn run(start: ProvisionerView, reports: Reports) -> Run
    recommends
        start.stage == Stage::Budgeting,
{
    match start.next(Event::RentMinimum(reports.rent_minimum)) {
        StepView::Finished(outcome) => Run { issued: seq![], outcome },
        StepView::Next(allocating, first) => match allocating.next(
            Event::Returned(reports.allocated),
        ) {
            StepView::Finished(outcome) => Run { issued: seq![first], outcome },
            StepView::Next(initializing, second) => match initializing.next(
                Event::Returned(reports.initialized),
            ) {
                StepView::Finished(outcome) => Run { issued: seq![first, second], outcome },
                StepView::Next(attaching, third) => Run {
                    issued: seq![first, second, third],
                    outcome: match attaching.next(Event::Returned(reports.attached)) {
                        StepView::Finished(outcome) => outcome,
                        StepView::Next(_, _) => Ok(()),
                    },
                },
            },
        }
    }
}

/// How an attempt on the given accounts ends: with the first failure among
/// the answers, taken in order, where an address other than the token
/// program's in the token program's place counts as a failure of the second
/// stage; with success if there is none.
pub open spec fn verdict(accounts: AccountSet, reports: Reports) -> Result<(), ProvisionError> {
    if reports.rent_minimum is Err {
        Err(ProvisionError::Allocation(reports.rent_minimum->Err_0))
    } else if reports.allocated is Err {
        Err(ProvisionError::Allocation(reports.allocated->Err_0))
    } else if accounts.token_program.key != TOKEN_PROGRAM_ID {
        Err(ProvisionError::Initialization(INCORRECT_PROGRAM_ID))
    } else if reports.initialized is Err {
        Err(ProvisionError::Initialization(reports.initialized->Err_0))
    } else if reports.attached is Err {
        Err(ProvisionError::Metadata(reports.attached->Err_0))
    } else {
        Ok(())
    }
}

/// The calls an attempt issues before it ends: none if no budget is
/// reported, otherwise the allocation; then the initialisation if the
/// allocation succeeded and the token program is in its place; then the
/// attachment if the initialisation succeeded.
pub open spec fn issued(start: ProvisionerView, reports: Reports) -> Seq<ActionView> {
    let first = ActionView::Invoke(
        allocation_call(start.accounts, reports.rent_minimum->Ok_0),
    );
    let second = ActionView::Invoke(initialization_call(start.accounts, start.request.decimals));
    let third = ActionView::Invoke(attachment_call(start.accounts, start.request));
    if reports.rent_minimum is Err {
        seq![]
    } else if reports.allocated is Err || start.accounts.token_program.key != TOKEN_PROGRAM_ID {
        seq![first]
    } else if reports.initialized is Err {
        seq![first, second]
    } else {
        seq![first, second, third]
    }
}

/// The calls go out in the fixed order, no call follows a failure, and the
/// attempt ends with the first failure or, if there is none, with success.
pub proof fn lemma_first_failure_ends_the_attempt(start: ProvisionerView, reports: Reports)
    requires
        start.stage == Stage::Budgeting,
    ensures
        run(start, reports).outcome == verdict(start.accounts, reports),
        run(start, reports).issued == issued(start, reports),
{
}

/// Behind the all-or-nothing boundary, an attempt in which the second or
/// the third delegated call failed leaves no trace: what is visible after
/// it is what was there before it.
pub proof fn lemma_failure_leaves_no_trace<S>(
    start: ProvisionerView,
    reports: Reports,
    before: S,
    attempted: S,
)
    requires
        start.stage == Stage::Budgeting,
        reports.initialized is Err || reports.attached is Err,
    ensures
        run(start, reports).outcome is Err,
        visible(before, attempted, run(start, reports).outcome) == before,
{
    lemma_first_failure_ends_the_attempt(start, reports);
}

/// The metadata call, whenever an attempt issues it, carries title, symbol
/// and uri exactly as requested, a fee of zero, no creator list, collection
/// link, uses descriptor or collection details, and the mark that the
/// record stays open to updates.
pub proof fn lemma_metadata_carries_the_request(
    request: CreationRequest,
    accounts: AccountSet,
    reports: Reports,
)
    requires
        request.fits(),
        run(opening(request, accounts), reports).issued.len() == 3,
    ensures
        run(opening(request, accounts), reports).issued[2] == ActionView::Invoke(
            attachment_call(accounts, request),
        ),
        attachment(accounts, request).name == request.title,
        attachment(accounts, request).symbol == request.symbol,
        attachment(accounts, request).uri == request.uri,
        attachment(accounts, request).seller_fee_basis_points == 0,
        attachment(accounts, request).is_mutable,
        attachment_call(accounts, request).instruction.data == seq![33u8] + text_frame(
            request.title,
        ) + text_frame(request.symbol) + text_frame(request.uri) + seq![0u8, 0] + seq![0u8, 0, 0]
            + seq![1u8] + seq![0u8],
{
    lemma_first_failure_ends_the_attempt(opening(request, accounts), reports);
}

/// Whatever precision is requested, the initialisation call, whenever an
/// attempt issues it, carries exactly that value, in the second byte of its
/// data.
pub proof fn lemma_initialization_carries_the_decimals(
    request: CreationRequest,
    accounts: AccountSet,
    reports: Reports,
)
    requires
        run(opening(request, accounts), reports).issued.len() >= 2,
    ensures
        run(opening(request, accounts), reports).issued[1] == ActionView::Invoke(
            initialization_call(accounts, request.decimals),
        ),
        initialization(accounts, request.decimals).decimals == request.decimals,
        initialization_call(accounts, request.decimals).instruction.data.len() == 67,
        initialization_call(accounts, request.decimals).instruction.data[0] == 0,
        initialization_call(accounts, request.decimals).instruction.data[1] == request.decimals,
{
    lemma_first_failure_ends_the_attempt(opening(request, accounts), reports);
}

/// The initialisation call, whenever an attempt issues it, names the
/// supplied mint authority, and no other identity, as the one that may mint
/// and as the one that may freeze.
pub proof fn lemma_initialization_binds_the_authority(
    request: CreationRequest,
    accounts: AccountSet,
    reports: Reports,
)
    requires
        run(opening(request, accounts), reports).issued.len() >= 2,
    ensures
        run(opening(request, accounts), reports).issued[1] == ActionView::Invoke(
            initialization_call(accounts, request.decimals),
        ),
        initialization(accounts, request.decimals).mint_authority == accounts.mint_authority.key,
        initialization(accounts, request.decimals).freeze_authority == Some(
            accounts.mint_authority.key,
        ),
        initialization_call(accounts, request.decimals).instruction.data.subrange(2, 34)
            == accounts.mint_authority.key@,
        initialization_call(accounts, request.decimals).instruction.data[34] == 1,
        initialization_call(accounts, request.decimals).instruction.data.subrange(35, 67)
            == accounts.mint_authority.key@,
{
    lemma_first_failure_ends_the_attempt(opening(request, accounts), reports);
    let data = initialization_call(accounts, request.decimals).instruction.data;
    assert(data.subrange(2, 34) =~= accounts.mint_authority.key@);
    assert(data.subrange(35, 67) =~= accounts.mint_authority.key@);
}

/// A list with the entries at two positions exchanged.
pub open spec fn exchanged(list: Seq<Account>, i: int, j: int) -> Seq<Account>
    recommends
        0 <= i < list.len(),
        0 <= j < list.len(),
{
    list.update(i, list[j]).update(j, list[i])
}

/// Exchanging two of the eight entries that differ in their address
/// changes at least one of the three requests.
pub proof fn lemma_exchange_changes_a_request(
    list: Seq<Account>,
    i: int,
    j: int,
    request: CreationRequest,
    lamports: u64,
)
    requires
        list.len() >= ACCOUNT_COUNT,
        0 <= i < j < ACCOUNT_COUNT,
        list[i].key != list[j].key,
    ensures
        ({
            let given = AccountSet::bind(list);
            let changed = AccountSet::bind(exchanged(list, i, j));
            ||| allocation(given, lamports) != allocation(changed, lamports)
            ||| initialization(given, request.decimals) != initialization(
                changed,
                request.decimals,
            )
            ||| attachment(given, request) != attachment(changed, request)
        }),
{
}

/// Once the token program is exchanged out of its place, the attempt fails
/// whatever the delegated calls report, and the second and third call are
/// never issued.
pub proof fn lemma_exchanged_token_program_fails(
    list: Seq<Account>,
    i: int,
    j: int,
    request: CreationRequest,
    reports: Reports,
)
    requires
        list.len() >= ACCOUNT_COUNT,
        0 <= i < j < ACCOUNT_COUNT,
        list[i].key != list[j].key,
        AccountSet::bind(list).token_program.key == TOKEN_PROGRAM_ID,
        i == 6 || j == 6,
    ensures
        run(opening(request, AccountSet::bind(exchanged(list, i, j))), reports).outcome is Err,
        run(opening(request, AccountSet::bind(exchanged(list, i, j))), reports).issued.len() <= 1,
{
    lemma_first_failure_ends_the_attempt(
        opening(request, AccountSet::bind(exchanged(list, i, j))),
        reports,
    );
}

} // verus!
