//! Restreaming a proposal: finding the block, bringing it to the current round, and sending it
//! out again.

use vstd::prelude::*;
use vstd::string::*;

use crate::text;

verus! {

/// A round of consensus.
#[derive(Debug, Clone, Copy, PartialEq, Eq, Structural)]
pub enum Round {
    /// No round.
    Nil,
    /// A round, counted from zero.
    Number(u32),
}

impl Round {
    /// A round that is not nil.
    pub fn new(round: u32) -> (r: Round)
        ensures
            r == Round::Number(round),
    {
        Round::Number(round)
    }

    /// The number of the round: -1 for no round.
    pub open spec fn number(self) -> int {
        match self {
            Round::Nil => -1,
            Round::Number(n) => n as int,
        }
    }

    /// The number of the round in decimal.
    pub fn text(&self) -> (r: String)
        ensures
            r@ == text::signed_decimal(self.number()),
    {
        match self {
            Round::Nil => {
                assert(text::signed_decimal(-1) == "-1"@) by {
                    reveal_strlit("-");
                    reveal_strlit("-1");
                    assert("-"@ + seq![text::digit(1)] =~= "-1"@);
                }
                String::from_str("-1")
            },
            Round::Number(n) => text::decimal_text(*n as u64),
        }
    }
}

/// A block under consensus. What the consensus rounds do not touch is its content: the
/// proposer, the validity, the execution payload and the signature.
#[derive(Debug)]
pub struct ConsensusBlock<P> {
    pub height: u64,
    pub round: Round,
    pub valid_round: Round,
    pub content: P,
}

/// A request of the consensus engine to restream a proposal.
#[derive(Debug)]
pub struct RestreamRequest {
    pub height: u64,
    pub round: Round,
    pub valid_round: Round,
    /// The hash of the block, as it is written in messages.
    pub block_hash: String,
}

/// Why a proposal was not restreamed: what could not be done and, unless the block was missing,
/// the error below it.
#[derive(Debug)]
pub struct RestreamError<E> {
    pub message: String,
    pub cause: Option<E>,
}

/// How far a restream is: what is to be done next.
#[derive(Debug)]
pub enum RestreamState<P> {
    /// Look up the first block with this height and this block hash, whatever its round.
    FetchBlock(u64, String),
    /// Store the block.
    StoreBlock(ConsensusBlock<P>),
    /// Take the next stream identifier, and prepare the signed stream of the block under it.
    PrepareStream(ConsensusBlock<P>),
    /// Publish the prepared stream, for this height and round.
    StreamProposal(u64, Round),
    /// The proposal has been restreamed.
    Restreamed,
}

/// How what was to be done went.
#[derive(Debug)]
pub enum RestreamEvent<P, E> {
    Fetched(Result<Option<ConsensusBlock<P>>, E>),
    Stored(Result<(), E>),
    Prepared(Result<(), E>),
    Streamed(Result<(), E>),
}

/// Whether the event tells how the state's work went.
pub open spec fn answers<P, E>(state: RestreamState<P>, event: RestreamEvent<P, E>) -> bool {
    match state {
        RestreamState::FetchBlock(_, _) => event is Fetched,
        RestreamState::StoreBlock(_) => event is Stored,
        RestreamState::PrepareStream(_) => event is Prepared,
        RestreamState::StreamProposal(_, _) => event is Streamed,
        RestreamState::Restreamed => false,
    }
}

/// `what`, and which height and round it is about.
pub open spec fn at_round(what: Seq<char>, height: u64, round: Round) -> Seq<char> {
    what + " (height="@ + text::decimal(height as nat) + ", round="@ + text::signed_decimal(
        round.number(),
    )
}

/// The message of a failure of the repository.
pub open spec fn repository_failure(what: Seq<char>, request: RestreamRequest) -> Seq<char> {
    at_round(what, request.height, request.round) + ", block_hash="@ + request.block_hash@ + ")"@
}

/// The message of a request for a block that is not there.
pub open spec fn no_block(request: RestreamRequest) -> Seq<char> {
    at_round("No block found to restream"@, request.height, request.round) + ", valid_round="@
        + text::signed_decimal(request.valid_round.number()) + ")"@
}

/// The message of a failure to send the block out.
pub open spec fn stream_failure(what: Seq<char>, height: u64, round: Round) -> Seq<char> {
    at_round(what, height, round) + ")"@
}

/// The block, moved to the round and the valid round of the request; nothing else changes.
pub open spec fn brought_up<P>(
    block: ConsensusBlock<P>,
    request: RestreamRequest,
) -> ConsensusBlock<P> {
    ConsensusBlock { round: request.round, valid_round: request.valid_round, ..block }
}

/// What a step of a restream comes to.
pub open spec fn told<T, E>(r: Result<T, RestreamError<E>>) -> Result<T, (Seq<char>, Option<E>)> {
    match r {
        Ok(value) => Ok(value),
        Err(e) => Err((e.message@, e.cause)),
    }
}

/// `what`, and which height and round it is about.
fn at_round_text(what: &str, height: u64, round: Round) -> (r: String)
    ensures
        r@ == at_round(what@, height, round),
{
    let mut message = String::from_str(what);
    message.append(" (height=");
    message.append(text::decimal_text(height).as_str());
    message.append(", round=");
    message.append(round.text().as_str());
    message
}

/// The error of a repository that failed.
fn repository_error<E>(what: &str, request: &RestreamRequest, cause: E) -> (r: RestreamError<E>)
    ensures
        r.message@ == repository_failure(what@, *request),
        r.cause == Some(cause),
{
    let mut message = at_round_text(what, request.height, request.round);
    message.append(", block_hash=");
    message.append(request.block_hash.as_str());
    message.append(")");
    RestreamError { message, cause: Some(cause) }
}

/// The error of a stream that failed.
fn stream_error<E>(what: &str, height: u64, round: Round, cause: E) -> (r: RestreamError<E>)
    ensures
        r.message@ == stream_failure(what@, height, round),
        r.cause == Some(cause),
{
    let mut message = at_round_text(what, height, round);
    message.append(")");
    RestreamError { message, cause: Some(cause) }
}

/// The state in which a restream begins: the block of the request is to be looked up.
pub open spec fn first_state<P>(request: RestreamRequest) -> RestreamState<P> {
    RestreamState::FetchBlock(request.height, request.block_hash)
}

/// Begins a restream: the block is looked up by height and block hash.
pub fn begin<P>(request: &RestreamRequest) -> (r: RestreamState<P>)
    ensures
        r == first_state::<P>(*request),
{
    RestreamState::FetchBlock(request.height, request.block_hash.clone())
}

/// What a lookup comes to: the block to store and then restream, if there is one.
pub open spec fn found_block<P, E>(
    request: RestreamRequest,
    fetched: Result<Option<ConsensusBlock<P>>, E>,
) -> Result<Option<ConsensusBlock<P>>, (Seq<char>, Option<E>)> {
    match fetched {
        Err(e) => Err(
            (repository_failure("Failed to fetch block for restreaming"@, request), Some(e)),
        ),
        Ok(None) => Ok(None),
        Ok(Some(block)) => Ok(Some(brought_up(block, request))),
    }
}

/// Takes the block that the lookup gave and brings it to the round and the valid round of the
/// request. It is to be stored in this form before it is restreamed.
pub fn get_block_to_restream<P, E>(
    request: &RestreamRequest,
    fetched: Result<Option<ConsensusBlock<P>>, E>,
) -> (r: Result<Option<ConsensusBlock<P>>, RestreamError<E>>)
    ensures
        told(r) == found_block(*request, fetched),
        fetched matches Ok(Some(block)) ==> r is Ok && r->Ok_0 is Some && ({
            let found = r->Ok_0->0;
            &&& found.height == block.height
            &&& found.round == request.round
            &&& found.valid_round == request.valid_round
            &&& found.content == block.content
        }),
        fetched matches Ok(None) ==> r is Ok && r->Ok_0 is None,
        fetched matches Err(cause) ==> r is Err && r->Err_0.cause == Some(cause),
{
    match fetched {
        Ok(Some(block)) => {
            let mut block = block;
            block.round = request.round;
            block.valid_round = request.valid_round;
            Ok(Some(block))
        },
        Ok(None) => Ok(None),
        Err(e) => Err(repository_error("Failed to fetch block for restreaming", request, e)),
    }
}

/// What storing the block comes to: the block to restream is the one that was stored.
pub open spec fn stored_block<P, E>(
    request: RestreamRequest,
    block: ConsensusBlock<P>,
    stored: Result<(), E>,
) -> Result<ConsensusBlock<P>, (Seq<char>, Option<E>)> {
    match stored {
        Ok(_) => Ok(block),
        Err(e) => Err(
            (
                repository_failure("Failed to store updated block before restreaming"@, request),
                Some(e),
            ),
        ),
    }
}

/// Lets the stored block be restreamed, unless it could not be stored.
pub fn store_updated_block<P, E>(
    request: &RestreamRequest,
    block: ConsensusBlock<P>,
    stored: Result<(), E>,
) -> (r: Result<ConsensusBlock<P>, RestreamError<E>>)
    ensures
        told(r) == stored_block(*request, block, stored),
        stored is Ok ==> r == Ok::<ConsensusBlock<P>, RestreamError<E>>(block),
        stored matches Err(cause) ==> r is Err && r->Err_0.cause == Some(cause),
{
    match stored {
        Ok(_) => Ok(block),
        Err(e) => Err(
            repository_error("Failed to store updated block before restreaming", request, e),
        ),
    }
}

/// The state and the work that follow, or the error that ends the restream.
pub open spec fn next_state<P, E>(
    request: RestreamRequest,
    state: RestreamState<P>,
    event: RestreamEvent<P, E>,
) -> Result<RestreamState<P>, (Seq<char>, Option<E>)> {
    match (state, event) {
        (RestreamState::FetchBlock(_, _), RestreamEvent::Fetched(fetched)) => match found_block(
            request,
            fetched,
        ) {
            Err(e) => Err(e),
            Ok(None) => Err((no_block(request), None)),
            Ok(Some(block)) => Ok(RestreamState::StoreBlock(block)),
        },
        (RestreamState::StoreBlock(block), RestreamEvent::Stored(stored)) => match stored_block(
            request,
            block,
            stored,
        ) {
            Err(e) => Err(e),
            Ok(block) => Ok(RestreamState::PrepareStream(block)),
        },
        (state, event) => restreamed(state, event),
    }
}

/// The part of [`next_state`] that sends the block out.
pub open spec fn restreamed<P, E>(state: RestreamState<P>, event: RestreamEvent<P, E>) -> Result<
    RestreamState<P>,
    (Seq<char>, Option<E>),
> {
    match (state, event) {
        (RestreamState::PrepareStream(block), RestreamEvent::Prepared(prepared)) => match prepared {
            Ok(_) => Ok(RestreamState::StreamProposal(block.height, block.round)),
            Err(e) => Err(
                (
                    stream_failure(
                        "Failed to prepare proposal parts for restreaming"@,
                        block.height,
                        block.round,
                    ),
                    Some(e),
                ),
            ),
        },
        (RestreamState::StreamProposal(height, round), RestreamEvent::Streamed(sent)) => match sent {
            Ok(_) => Ok(RestreamState::Restreamed),
            Err(e) => Err(
                (stream_failure("Failed to restream proposal"@, height, round), Some(e)),
            ),
        },
        (state, _) => Ok(state),
    }
}

/// Sends a block out: first its stream is prepared, then the stream is published for the height
/// and the round of the block.
pub fn restream_proposal<P, E>(state: RestreamState<P>, event: RestreamEvent<P, E>) -> (r: Result<
    RestreamState<P>,
    RestreamError<E>,
>)
    requires
        state is PrepareStream || state is StreamProposal,
        answers(state, event),
    ensures
        told(r) == restreamed(state, event),
{
    match (state, event) {
        (RestreamState::PrepareStream(block), RestreamEvent::Prepared(prepared)) => match prepared {
            Ok(_) => Ok(RestreamState::StreamProposal(block.height, block.round)),
            Err(e) => Err(
                stream_error(
                    "Failed to prepare proposal parts for restreaming",
                    block.height,
                    block.round,
                    e,
                ),
            ),
        },
        (RestreamState::StreamProposal(height, round), RestreamEvent::Streamed(sent)) => match sent {
            Ok(_) => Ok(RestreamState::Restreamed),
            Err(e) => Err(stream_error("Failed to restream proposal", height, round, e)),
        },
        (state, _) => Ok(state),
    }
}

/// Handles the `RestreamProposal` message from the consensus engine.
///
/// A restream starts with [`begin`]. Whoever runs it does what the state says, passes in how it
/// went, and goes on with the state returned until it is [`RestreamState::Restreamed`] or an
/// error comes back. The block is looked up by height and block hash (ignoring round), so it
/// will be found regardless of which round it was first stored under. The block's round and
/// valid_round are updated to match the current proposal context before restreaming.
///
/// ## Errors
/// - If no block is found for the specified height and block hash
/// - If there are issues fetching or storing the block in the repository
/// - If there are issues preparing or streaming the proposal parts
pub fn handle<P, E>(
    request: &RestreamRequest,
    state: RestreamState<P>,
    event: RestreamEvent<P, E>,
) -> (r: Result<RestreamState<P>, RestreamError<E>>)
    requires
        answers(state, event),
    ensures
        told(r) == next_state(*request, state, event),
        event matches RestreamEvent::Fetched(Ok(Some(block))) ==> r is Ok && r->Ok_0 is StoreBlock
            && ({
            let stored = r->Ok_0->StoreBlock_0;
            &&& stored.height == block.height
            &&& stored.round == request.round
            &&& stored.valid_round == request.valid_round
            &&& stored.content == block.content
        }),
        state is StoreBlock && event is Stored && event->Stored_0 is Ok ==> r is Ok
            && r->Ok_0 is PrepareStream && r->Ok_0->PrepareStream_0 == state->StoreBlock_0,
{
    match (state, event) {
        (RestreamState::FetchBlock(_, _), RestreamEvent::Fetched(fetched)) => match get_block_to_restream(
            request,
            fetched,
        ) {
            Err(e) => Err(e),
            Ok(Some(block)) => Ok(RestreamState::StoreBlock(block)),
            Ok(None) => {
                let mut message = at_round_text(
                    "No block found to restream",
                    request.height,
                    request.round,
                );
                message.append(", valid_round=");
                message.append(request.valid_round.text().as_str());
                message.append(")");
                Err(RestreamError { message, cause: None })
            },
        },
        (RestreamState::StoreBlock(block), RestreamEvent::Stored(stored)) => match store_updated_block(
            request,
            block,
            stored,
        ) {
            Err(e) => Err(e),
            Ok(block) => Ok(RestreamState::PrepareStream(block)),
        },
        (state, event) => restream_proposal(state, event),
    }
}

/// How a restream ends that goes through the given events, as far as it needs them.
pub open spec fn run<P, E>(
    request: RestreamRequest,
    state: RestreamState<P>,
    events: Seq<RestreamEvent<P, E>>,
) -> Result<RestreamState<P>, (Seq<char>, Option<E>)>
    decreases events.len(),
{
    if events.len() == 0 {
        Ok(state)
    } else {
        match next_state(request, state, events[0]) {
            Err(e) => Err(e),
            Ok(state) => run(request, state, events.drop_first()),
        }
    }
}

/// A restream succeeds if and only if a block is found, stored, prepared and streamed; the first
/// thing that fails is the error, and nothing after it is asked for.
pub proof fn law_restream_run<P, E>(
    request: RestreamRequest,
    fetched: Result<Option<ConsensusBlock<P>>, E>,
    stored: Result<(), E>,
    prepared: Result<(), E>,
    streamed: Result<(), E>,
)
    ensures
        run(
            request,
            first_state::<P>(request),
            seq![
                RestreamEvent::Fetched(fetched),
                RestreamEvent::Stored(stored),
                RestreamEvent::Prepared(prepared),
                RestreamEvent::Streamed(streamed),
            ],
        ) == (match (fetched, stored, prepared, streamed) {
            (Err(e), _, _, _) => Err(
                (repository_failure("Failed to fetch block for restreaming"@, request), Some(e)),
            ),
            (Ok(None), _, _, _) => Err((no_block(request), None)),
            (Ok(Some(_)), Err(e), _, _) => Err(
                (
                    repository_failure("Failed to store updated block before restreaming"@, request),
                    Some(e),
                ),
            ),
            (Ok(Some(block)), Ok(_), Err(e), _) => Err(
                (
                    stream_failure(
                        "Failed to prepare proposal parts for restreaming"@,
                        block.height,
                        request.round,
                    ),
                    Some(e),
                ),
            ),
            (Ok(Some(block)), Ok(_), Ok(_), Err(e)) => Err(
                (
                    stream_failure("Failed to restream proposal"@, block.height, request.round),
                    Some(e),
                ),
            ),
            (Ok(Some(_)), Ok(_), Ok(_), Ok(_)) => Ok(RestreamState::<P>::Restreamed),
        }),
{
    reveal_with_fuel(run, 5);
    let events = seq![
        RestreamEvent::Fetched(fetched),
        RestreamEvent::Stored(stored),
        RestreamEvent::Prepared(prepared),
        RestreamEvent::Streamed(streamed),
    ];
    assert(events.drop_first()[0] == RestreamEvent::<P, E>::Stored(stored));
    assert(events.drop_first().drop_first()[0] == RestreamEvent::<P, E>::Prepared(prepared));
    assert(events.drop_first().drop_first().drop_first()[0] == RestreamEvent::<P, E>::Streamed(
        streamed,
    ));
}

/// The block is looked up by its height and its hash alone: the rounds of the request make no
/// difference to what is looked up.
pub proof fn law_lookup_ignores_rounds<P>(a: RestreamRequest, b: RestreamRequest)
    requires
        a.height == b.height,
        a.block_hash == b.block_hash,
    ensures
        first_state::<P>(a) == first_state::<P>(b),
{
}

/// The block that is prepared for the stream is the block that was stored, and that is the block
/// that was found, in the round and the valid round of the request.
pub proof fn law_stored_block_is_streamed<P, E>(request: RestreamRequest, block: ConsensusBlock<P>)
    ensures
        ({
            let found = next_state::<P, E>(
                request,
                first_state::<P>(request),
                RestreamEvent::Fetched(Ok(Some(block))),
            );
            let stored = next_state::<P, E>(
                request,
                found->Ok_0,
                RestreamEvent::Stored(Ok(())),
            );
            &&& found == Ok::<RestreamState<P>, (Seq<char>, Option<E>)>(
                RestreamState::StoreBlock(brought_up(block, request)),
            )
            &&& stored == Ok::<RestreamState<P>, (Seq<char>, Option<E>)>(
                RestreamState::PrepareStream(brought_up(block, request)),
            )
        }),
{
}

/// Whatever its rounds were, the block that is found is stored, and the block that is stored is
/// prepared for the stream and then streamed, each with the round and the valid round of the
/// request, nil and zero included, and with its own height and content.
pub proof fn law_rounds_are_those_of_the_request<P, E>(
    request: RestreamRequest,
    height: u64,
    block_hash: String,
    block: ConsensusBlock<P>,
)
    ensures
        next_state::<P, E>(
            request,
            RestreamState::FetchBlock(height, block_hash),
            RestreamEvent::Fetched(Ok(Some(block))),
        ) matches Ok(RestreamState::StoreBlock(stored)) && {
            &&& stored.round == request.round
            &&& stored.valid_round == request.valid_round
            &&& stored.height == block.height
            &&& stored.content == block.content
            &&& next_state::<P, E>(
                request,
                RestreamState::StoreBlock(stored),
                RestreamEvent::Stored(Ok(())),
            ) matches Ok(RestreamState::PrepareStream(sent)) && {
                &&& sent.round == request.round
                &&& sent.valid_round == request.valid_round
                &&& sent.height == block.height
                &&& sent.content == block.content
                &&& next_state::<P, E>(
                    request,
                    RestreamState::PrepareStream(sent),
                    RestreamEvent::Prepared(Ok(())),
                ) matches Ok(RestreamState::StreamProposal(at, round)) && at == block.height
                    && round == request.round
            }
        },
        found_block::<P, E>(request, Ok(Some(block))) matches Ok(Some(found)) && found.round
            == request.round && found.valid_round == request.valid_round && found.height
            == block.height && found.content == block.content,
{
}

/// A block is stored and streamed as it stands in the state: no field changes on the way.
pub proof fn law_blocks_pass_unchanged<P, E>(
    request: RestreamRequest,
    block: ConsensusBlock<P>,
    height: u64,
    round: Round,
)
    ensures
        next_state::<P, E>(
            request,
            RestreamState::StoreBlock(block),
            RestreamEvent::Stored(Ok(())),
        ) matches Ok(RestreamState::PrepareStream(sent)) && sent.height == block.height
            && sent.round == block.round && sent.valid_round == block.valid_round && sent.content
            == block.content,
        stored_block::<P, E>(request, block, Ok(())) matches Ok(sent) && sent.height == block.height
            && sent.round == block.round && sent.valid_round == block.valid_round && sent.content
            == block.content,
        next_state::<P, E>(
            request,
            RestreamState::PrepareStream(block),
            RestreamEvent::Prepared(Ok(())),
        ) matches Ok(RestreamState::StreamProposal(at, in_round)) && at == block.height && in_round
            == block.round,
        next_state::<P, E>(
            request,
            RestreamState::StreamProposal(height, round),
            RestreamEvent::Streamed(Ok(())),
        ) matches Ok(RestreamState::Restreamed),
{
}

/// The lookup is for the height and the block hash of the request.
pub proof fn law_lookup_is_for_the_request<P>(request: RestreamRequest)
    ensures
        first_state::<P>(request) matches RestreamState::FetchBlock(height, block_hash) && height
            == request.height && block_hash@ == request.block_hash@,
{
}

/// A failure of any step ends the restream. The error keeps its cause and says what failed, at
/// which height and in which round; a failure of the repository also names the block. A block
/// that is not there ends it too, with an error that has no cause and names both rounds.
pub proof fn law_failures_end_a_restream<P, E>(
    request: RestreamRequest,
    height: u64,
    round: Round,
    block: ConsensusBlock<P>,
    cause: E,
)
    ensures
        ({
            let at = " (height="@;
            let in_round = ", round="@;
            let asked = text::signed_decimal(request.round.number());
            &&& next_state::<P, E>(
                request,
                first_state::<P>(request),
                RestreamEvent::Fetched(Err(cause)),
            ) == Err::<RestreamState<P>, _>(
                (
                    "Failed to fetch block for restreaming"@ + at + text::decimal(
                        request.height as nat,
                    ) + in_round + asked + ", block_hash="@ + request.block_hash@ + ")"@,
                    Some(cause),
                ),
            )
            &&& next_state::<P, E>(
                request,
                first_state::<P>(request),
                RestreamEvent::Fetched(Ok(None)),
            ) == Err::<RestreamState<P>, _>(
                (
                    "No block found to restream"@ + at + text::decimal(request.height as nat)
                        + in_round + asked + ", valid_round="@ + text::signed_decimal(
                        request.valid_round.number(),
                    ) + ")"@,
                    None::<E>,
                ),
            )
            &&& next_state::<P, E>(
                request,
                RestreamState::StoreBlock(block),
                RestreamEvent::Stored(Err(cause)),
            ) == Err::<RestreamState<P>, _>(
                (
                    "Failed to store updated block before restreaming"@ + at + text::decimal(
                        request.height as nat,
                    ) + in_round + asked + ", block_hash="@ + request.block_hash@ + ")"@,
                    Some(cause),
                ),
            )
            &&& next_state::<P, E>(
                request,
                RestreamState::PrepareStream(block),
                RestreamEvent::Prepared(Err(cause)),
            ) == Err::<RestreamState<P>, _>(
                (
                    "Failed to prepare proposal parts for restreaming"@ + at + text::decimal(
                        block.height as nat,
                    ) + in_round + text::signed_decimal(block.round.number()) + ")"@,
                    Some(cause),
                ),
            )
            &&& next_state::<P, E>(
                request,
                RestreamState::StreamProposal(height, round),
                RestreamEvent::Streamed(Err(cause)),
            ) == Err::<RestreamState<P>, _>(
                (
                    "Failed to restream proposal"@ + at + text::decimal(height as nat) + in_round
                        + text::signed_decimal(round.number()) + ")"@,
                    Some(cause),
                ),
            )
            &&& found_block::<P, E>(request, Err(cause)) is Err
            &&& found_block::<P, E>(request, Ok(None)) == Ok::<
                Option<ConsensusBlock<P>>,
                (Seq<char>, Option<E>),
            >(None)
        }),
{
}

/// Rounds are counted from zero, and no round is minus one: different rounds have different
/// numbers.
pub proof fn law_rounds_have_their_own_numbers(n: u32, a: Round, b: Round)
    ensures
        Round::Nil.number() == -1,
        Round::Number(n).number() == n,
        a.number() == b.number() ==> a == b,
{
}

/// What a step comes to is told whole: its result, or the message and the cause of its error.
pub proof fn law_steps_are_told<T, E>(value: T, error: RestreamError<E>)
    ensures
        told(Ok::<T, RestreamError<E>>(value)) == Ok::<T, (Seq<char>, Option<E>)>(value),
        told(Err::<T, RestreamError<E>>(error)) == Err::<T, _>((error.message@, error.cause)),
{
}

/// A lookup answers for the lookup, a store for the store, and so on; once the proposal is
/// restreamed nothing is left to answer for.
pub proof fn law_events_answer_for_their_work<P, E>(
    state: RestreamState<P>,
    event: RestreamEvent<P, E>,
)
    ensures
        answers(state, event) <==> (state is FetchBlock && event is Fetched) || (state is StoreBlock
            && event is Stored) || (state is PrepareStream && event is Prepared) || (
        state is StreamProposal && event is Streamed),
{
}

} // verus!
