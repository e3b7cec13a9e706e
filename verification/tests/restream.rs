use quake::restream::{
    begin, get_block_to_restream, handle, restream_proposal, ConsensusBlock, RestreamError,
    RestreamEvent, RestreamRequest, RestreamState, Round,
};

const HASH: &str = "0x0000000000000000000000000000000000000000000000000000000000000000";

fn request(round: Round, valid_round: Round) -> RestreamRequest {
    RestreamRequest { height: 10, round, valid_round, block_hash: HASH.to_string() }
}

fn block(round: Round, valid_round: Round) -> ConsensusBlock<&'static str> {
    ConsensusBlock { height: 10, round, valid_round, content: "payload" }
}

type State = RestreamState<&'static str>;
type Event = RestreamEvent<&'static str, &'static str>;

fn error(r: Result<State, RestreamError<&'static str>>) -> (String, Option<&'static str>) {
    match r {
        Ok(_) => panic!("an error was expected"),
        Err(e) => (e.message, e.cause),
    }
}

#[test]
fn get_block_found_and_updated() {
    let round = Round::new(5);
    let valid_round = Round::new(3);
    let request = request(round, valid_round);
    let original = block(Round::new(0), Round::Nil);

    let result = get_block_to_restream::<_, &str>(&request, Ok(Some(original)));

    let block = result.unwrap().expect("block should be found");
    assert_eq!(block.round, round);
    assert_eq!(block.valid_round, valid_round);
    assert_eq!(block.height, 10);
    assert_eq!(block.content, "payload");

    // The same block is stored.
    let state = handle::<_, &str>(
        &request,
        begin(&request),
        RestreamEvent::Fetched(Ok(Some(self::block(Round::new(0), Round::Nil)))),
    );
    match state.unwrap() {
        RestreamState::StoreBlock(b) => {
            assert_eq!(b.round, round);
            assert_eq!(b.valid_round, valid_round);
        }
        other => panic!("unexpected state: {other:?}"),
    }
}

#[test]
fn get_block_not_found() {
    let request = request(Round::new(5), Round::new(3));
    let result = get_block_to_restream::<&str, &str>(&request, Ok(None));
    assert!(result.unwrap().is_none());
}

#[test]
fn get_block_repo_error_propagation() {
    let request = request(Round::new(5), Round::Nil);
    let result = get_block_to_restream::<&str, &str>(&request, Err("DB connection failed"));
    assert!(result.is_err());
    let e = result.unwrap_err();
    assert!(e.message.contains("Failed to fetch block"));
    assert_eq!(
        e.message,
        format!("Failed to fetch block for restreaming (height=10, round=5, block_hash={HASH})")
    );
    assert_eq!(e.cause, Some("DB connection failed"));
}

#[test]
fn restream_proposal_happy_path() {
    let block = block(Round::new(2), Round::Nil);
    let state = restream_proposal::<_, &str>(
        RestreamState::PrepareStream(block),
        RestreamEvent::Prepared(Ok(())),
    )
    .unwrap();
    assert!(matches!(state, RestreamState::StreamProposal(10, Round::Number(2))));
    let result = restream_proposal::<&str, &str>(state, RestreamEvent::Streamed(Ok(())));
    assert!(result.is_ok());
    assert!(matches!(result.unwrap(), RestreamState::Restreamed));
}

/// Runs a restream in which the four steps go as given.
fn run(
    fetched: Result<Option<ConsensusBlock<&'static str>>, &'static str>,
    stored: Result<(), &'static str>,
    prepared: Result<(), &'static str>,
    streamed: Result<(), &'static str>,
) -> Result<State, RestreamError<&'static str>> {
    let request = request(Round::new(7), Round::new(1));
    let mut state: State = begin(&request);
    let events: Vec<Event> = vec![
        RestreamEvent::Fetched(fetched),
        RestreamEvent::Stored(stored),
        RestreamEvent::Prepared(prepared),
        RestreamEvent::Streamed(streamed),
    ];
    for event in events {
        state = handle(&request, state, event)?;
    }
    Ok(state)
}

#[test]
fn a_restream_runs_to_its_end() {
    let found = Ok(Some(block(Round::new(0), Round::Nil)));
    let state = run(found, Ok(()), Ok(()), Ok(()));
    assert!(matches!(state, Ok(RestreamState::Restreamed)));
}

#[test]
fn the_stored_block_is_streamed() {
    let request = request(Round::new(7), Round::new(1));
    let state = handle::<_, &str>(
        &request,
        begin(&request),
        RestreamEvent::Fetched(Ok(Some(block(Round::new(0), Round::Nil)))),
    )
    .unwrap();
    let state = handle::<_, &str>(&request, state, RestreamEvent::Stored(Ok(()))).unwrap();
    match state {
        RestreamState::PrepareStream(b) => {
            assert_eq!(b.round, Round::new(7));
            assert_eq!(b.valid_round, Round::new(1));
            assert_eq!(b.content, "payload");
        }
        other => panic!("unexpected state: {other:?}"),
    }
}

#[test]
fn every_failure_of_a_restream_is_told() {
    let found = || Ok(Some(block(Round::new(0), Round::Nil)));
    assert_eq!(
        error(run(Err("down"), Ok(()), Ok(()), Ok(()))),
        (
            format!("Failed to fetch block for restreaming (height=10, round=7, block_hash={HASH})"),
            Some("down")
        )
    );
    assert_eq!(
        error(run(Ok(None), Ok(()), Ok(()), Ok(()))),
        ("No block found to restream (height=10, round=7, valid_round=1)".to_string(), None)
    );
    assert_eq!(
        error(run(found(), Err("full"), Ok(()), Ok(()))),
        (
            format!(
                "Failed to store updated block before restreaming \
                 (height=10, round=7, block_hash={HASH})"
            ),
            Some("full")
        )
    );
    assert_eq!(
        error(run(found(), Ok(()), Err("no key"), Ok(()))),
        (
            "Failed to prepare proposal parts for restreaming (height=10, round=7)".to_string(),
            Some("no key")
        )
    );
    assert_eq!(
        error(run(found(), Ok(()), Ok(()), Err("closed"))),
        ("Failed to restream proposal (height=10, round=7)".to_string(), Some("closed"))
    );
}

#[test]
fn the_nil_round_is_minus_one() {
    let request = request(Round::Nil, Round::Nil);
    let r = handle::<&str, &str>(&request, begin(&request), RestreamEvent::Fetched(Ok(None)));
    assert_eq!(
        error(r).0,
        "No block found to restream (height=10, round=-1, valid_round=-1)"
    );
    assert_eq!(Round::new(4294967295).text(), "4294967295");
    assert_eq!(Round::new(0).text(), "0");
    assert_eq!(Round::Nil.text(), "-1");
}

#[test]
fn blocks_are_looked_up_by_height_and_hash() {
    for round in [Round::Nil, Round::new(0), Round::new(9)] {
        let state: State = begin(&request(round, Round::Nil));
        assert!(matches!(state, RestreamState::FetchBlock(10, hash) if hash == HASH));
    }
}
