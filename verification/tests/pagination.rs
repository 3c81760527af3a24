use rplaid::client::{Builder, ClientError, ParseError, Reply, TransportError};
use rplaid::model::{
    ErrorResponse, GetTransactionsOptions, GetTransactionsRequest, GetTransactionsResponse, Item,
    Transaction,
};
use rplaid::pagination::{IterState, TransactionsIter, DEFAULT_COUNT, DEFAULT_OFFSET};
use rust_decimal::Decimal;

fn item() -> Item {
    Item {
        item_id: "item-1".to_string(),
        institution_id: None,
        webhook: None,
        error: None,
        available_products: Vec::new(),
        billed_products: vec!["transactions".to_string()],
        consent_expiration_time: None,
        update_type: "background".to_string(),
        status: None,
    }
}

fn transaction(n: usize) -> Transaction {
    Transaction {
        transaction_type: "place".to_string(),
        pending_transaction_id: None,
        category_id: None,
        category: None,
        location: None,
        payment_meta: None,
        account_owner: None,
        name: format!("purchase {}", n),
        original_description: None,
        account_id: "account-1".to_string(),
        amount: Decimal::new(1250 + n as i64, 2),
        iso_currency_code: Some("USD".to_string()),
        unofficial_currency_code: None,
        date: "2021-09-02".to_string(),
        pending: false,
        transaction_id: format!("tx-{}", n),
        payment_channel: "in store".to_string(),
        merchant_name: None,
        authorized_date: None,
        authorized_datetime: None,
        datetime: None,
        check_number: None,
        transaction_code: None,
    }
}

/// What a service that holds `total` transactions answers to a request.
fn serve(total: usize, req: &GetTransactionsRequest) -> GetTransactionsResponse {
    let options = req.options.as_ref().unwrap();
    let offset = options.offset.unwrap();
    let count = options.count.unwrap();
    let end = total.min(offset.saturating_add(count));
    let transactions = (offset.min(end)..end).map(transaction).collect();
    GetTransactionsResponse {
        accounts: Vec::new(),
        transactions,
        total_transactions: total,
        item: item(),
        request_id: format!("req-{}", offset),
    }
}

fn base_request(options: Option<GetTransactionsOptions>) -> GetTransactionsRequest {
    GetTransactionsRequest {
        access_token: "access-sandbox-1".to_string(),
        start_date: "2021-09-01".to_string(),
        end_date: "2021-09-05".to_string(),
        options,
    }
}

fn paging(count: usize, offset: usize) -> Option<GetTransactionsOptions> {
    Some(GetTransactionsOptions {
        account_ids: None,
        count: Some(count),
        offset: Some(offset),
        include_original_description: None,
    })
}

#[test]
fn drains_the_seven_transactions_that_are_left() {
    // Twelve transactions in all; the walk starts at the sixth, in pages of ten.
    let mut iter = TransactionsIter::new(base_request(paging(10, 5)));
    let mut pages = 0;
    let mut drained: Vec<Transaction> = Vec::new();
    while let Some(req) = iter.next_request() {
        let batch = iter.receive(Ok(serve(12, &req))).unwrap();
        pages += 1;
        drained.extend(batch);
        assert!(pages <= 12);
    }
    assert_eq!(drained.len(), 7);
    assert_eq!(pages, 1);
    assert_eq!(drained[0].transaction_id, "tx-5");
    assert_eq!(drained[6].transaction_id, "tx-11");
    assert_eq!(iter.state(), IterState::Exhausted);
    assert_eq!(iter.yielded(), 7);
    assert!(iter.next_request().is_none());
    assert!(iter.next_request().is_none());
}

#[test]
fn failure_on_the_first_page_ends_the_walk() {
    let mut iter = TransactionsIter::new(base_request(None));
    let mut batches = 0;
    let mut errors = 0;
    while let Some(_req) = iter.next_request() {
        let cause = ClientError::Http(TransportError { message: "connection refused".to_string() });
        match iter.receive(Err(cause)) {
            Ok(_) => batches += 1,
            Err(ClientError::Http(e)) => {
                assert_eq!(e.message, "connection refused");
                errors += 1;
            },
            Err(other) => panic!("unexpected error: {:?}", other),
        }
        assert!(errors <= 1);
    }
    assert_eq!(batches, 0);
    assert_eq!(errors, 1);
    assert_eq!(iter.state(), IterState::Exhausted);
    assert_eq!(iter.yielded(), 0);
    assert!(iter.is_finished());
    assert!(iter.next_request().is_none());
}

#[test]
fn starts_with_the_defaults() {
    assert_eq!(DEFAULT_COUNT, 100);
    assert_eq!(DEFAULT_OFFSET, 0);
    let mut iter = TransactionsIter::new(base_request(None));
    assert_eq!(iter.state(), IterState::Initialized);
    assert_eq!(iter.offset(), 0);
    assert_eq!(iter.yielded(), 0);
    assert!(!iter.is_finished());
    let req = iter.next_request().unwrap();
    assert_eq!(iter.state(), IterState::AwaitingPage);
    assert_eq!(
        req,
        base_request(Some(GetTransactionsOptions {
            account_ids: None,
            count: Some(100),
            offset: Some(0),
            include_original_description: None,
        }))
    );
}

#[test]
fn defaults_fill_in_for_what_the_options_leave_out() {
    let options = GetTransactionsOptions {
        account_ids: Some("account-1".to_string()),
        count: None,
        offset: Some(3),
        include_original_description: Some("true".to_string()),
    };
    let mut iter = TransactionsIter::new(base_request(Some(options)));
    assert_eq!(iter.offset(), 3);
    let req = iter.next_request().unwrap();
    assert_eq!(
        req,
        base_request(Some(GetTransactionsOptions {
            account_ids: Some("account-1".to_string()),
            count: Some(100),
            offset: Some(3),
            include_original_description: Some("true".to_string()),
        }))
    );
    let options = GetTransactionsOptions {
        account_ids: None,
        count: Some(25),
        offset: None,
        include_original_description: None,
    };
    let mut iter = TransactionsIter::new(base_request(Some(options)));
    assert_eq!(iter.next_request().unwrap().options, paging(25, 0));
}

#[test]
fn asking_twice_repeats_the_request() {
    let mut iter = TransactionsIter::new(base_request(paging(10, 5)));
    let first = iter.next_request().unwrap();
    let again = iter.next_request().unwrap();
    assert_eq!(first, again);
    assert_eq!(iter.state(), IterState::AwaitingPage);
}

#[test]
fn offset_moves_on_by_all_that_was_handed_out() {
    let mut iter = TransactionsIter::new(base_request(paging(10, 0)));
    let req = iter.next_request().unwrap();
    assert_eq!(req.options, paging(10, 0));
    let batch = iter.receive(Ok(serve(100, &req))).unwrap();
    assert_eq!(batch.len(), 10);
    assert_eq!((iter.yielded(), iter.offset()), (10, 10));

    let req = iter.next_request().unwrap();
    assert_eq!(req.options, paging(10, 10));
    let batch = iter.receive(Ok(serve(100, &req))).unwrap();
    assert_eq!(batch[0].transaction_id, "tx-10");
    assert_eq!((iter.yielded(), iter.offset()), (20, 30));

    let req = iter.next_request().unwrap();
    assert_eq!(req.options, paging(10, 30));
    let batch = iter.receive(Ok(serve(100, &req))).unwrap();
    assert_eq!(batch[0].transaction_id, "tx-30");
    assert_eq!((iter.yielded(), iter.offset()), (30, 60));
    assert_eq!(iter.state(), IterState::AwaitingPage);
    assert!(!iter.is_finished());
}

#[test]
fn two_pages_drain_a_listing_of_two_pages() {
    let mut iter = TransactionsIter::new(base_request(paging(4, 0)));
    let mut drained = Vec::new();
    let mut offsets = Vec::new();
    while let Some(req) = iter.next_request() {
        offsets.push(req.options.as_ref().unwrap().offset.unwrap());
        drained.extend(iter.receive(Ok(serve(8, &req))).unwrap());
    }
    assert_eq!(offsets, vec![0, 4]);
    assert_eq!(drained.len(), 8);
    assert_eq!(iter.state(), IterState::Exhausted);
}

#[test]
fn what_is_left_is_fixed_by_the_first_page() {
    let mut iter = TransactionsIter::new(base_request(paging(2, 1)));
    let req = iter.next_request().unwrap();
    // Five in all, one skipped: four are left.
    assert_eq!(iter.receive(Ok(serve(5, &req))).unwrap().len(), 2);
    assert!(!iter.is_finished());
    let req = iter.next_request().unwrap();
    assert_eq!(req.options, paging(2, 3));
    // A later total does not change what is left.
    let mut page = serve(5, &req);
    page.total_transactions = 500;
    assert_eq!(iter.receive(Ok(page)).unwrap().len(), 2);
    assert_eq!(iter.yielded(), 4);
    assert!(iter.is_finished());
    assert!(iter.next_request().is_none());
    assert_eq!(iter.state(), IterState::Exhausted);
}

#[test]
fn nothing_is_left_when_the_walk_starts_past_the_end() {
    let mut iter = TransactionsIter::new(base_request(paging(10, 20)));
    let req = iter.next_request().unwrap();
    let batch = iter.receive(Ok(serve(12, &req))).unwrap();
    assert!(batch.is_empty());
    assert!(iter.is_finished());
    assert!(iter.next_request().is_none());

    let mut iter = TransactionsIter::new(base_request(paging(10, 12)));
    let req = iter.next_request().unwrap();
    assert!(iter.receive(Ok(serve(12, &req))).unwrap().is_empty());
    assert!(iter.next_request().is_none());
}

#[test]
fn empty_listing_takes_one_page() {
    let mut iter = TransactionsIter::new(base_request(None));
    let mut pages = 0;
    while let Some(req) = iter.next_request() {
        assert!(iter.receive(Ok(serve(0, &req))).unwrap().is_empty());
        pages += 1;
    }
    assert_eq!(pages, 1);
}

#[test]
fn failure_after_a_page_ends_the_walk() {
    let mut iter = TransactionsIter::new(base_request(paging(3, 0)));
    let req = iter.next_request().unwrap();
    assert_eq!(iter.receive(Ok(serve(9, &req))).unwrap().len(), 3);
    let _ = iter.next_request().unwrap();
    let body = ErrorResponse { error_code: Some("RATE_LIMIT".to_string()), ..ErrorResponse::default() };
    match iter.receive(Err(ClientError::App(body.clone()))) {
        Err(ClientError::App(e)) => assert_eq!(e, body),
        other => panic!("unexpected result: {:?}", other),
    }
    assert_eq!(iter.state(), IterState::Exhausted);
    assert_eq!(iter.yielded(), 3);
    assert!(iter.next_request().is_none());
}

#[test]
fn parse_failure_ends_the_walk() {
    let client = Builder::new().build();
    let mut iter = client.transactions_iter(base_request(None));
    let _ = iter.next_request().unwrap();
    let reply: Reply<GetTransactionsResponse> =
        Reply::Payload(Err(ParseError { message: "missing field `transactions`".to_string() }));
    assert!(matches!(iter.receive(client.transactions(reply)), Err(ClientError::Parse(_))));
    assert!(iter.next_request().is_none());
}

#[test]
fn walks_from_the_same_request_are_independent() {
    let req = base_request(paging(10, 5));
    let mut first = TransactionsIter::new(req.clone());
    let page = first.next_request().unwrap();
    let _ = first.receive(Ok(serve(12, &page))).unwrap();
    assert!(first.next_request().is_none());

    let mut second = TransactionsIter::new(req);
    assert_eq!(second.state(), IterState::Initialized);
    assert_eq!(second.yielded(), 0);
    assert_eq!(second.offset(), 5);
    assert_eq!(second.next_request().unwrap().options, paging(10, 5));
}
