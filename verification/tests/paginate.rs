use polymarket_client::client::api::{
    APIError, Method, PageOutcome, PageStep, PaginatedResponse, PaginatedStream,
};

fn page(data: &[u8], next_cursor: &str) -> Result<PaginatedResponse<u8>, APIError> {
    Ok(PaginatedResponse { data: data.to_vec(), next_cursor: next_cursor.to_owned() })
}

fn list() -> PaginatedStream<u8> {
    PaginatedStream::new("u".to_owned(), vec![("a".to_owned(), "1".to_owned())])
}

fn cursor(list: &PaginatedStream<u8>) -> String {
    let req = list.page_request();
    assert_eq!((req.method, req.url.as_str()), (Method::Get, "u"));
    assert_eq!(req.query[0], ("a".to_owned(), "1".to_owned()));
    assert_eq!(req.query[1].0, "nextCursor");
    assert_eq!(req.query.len(), 2);
    req.query[1].1.clone()
}

#[test]
fn pages_in_turn() {
    let mut list = list();
    assert_eq!(cursor(&list), "MA==");
    assert!(matches!(list.poll_next(), PageStep::Await));
    assert!(matches!(
        list.receive(page(&[1, 2, 3], "NTA=")),
        PageOutcome::Item { item: 3, fetch_next: true }
    ));
    assert_eq!(cursor(&list), "NTA=");
    assert!(matches!(list.poll_next(), PageStep::Item(2)));
    assert!(matches!(list.poll_next(), PageStep::Item(1)));
    assert!(matches!(list.poll_next(), PageStep::Await));
    assert!(matches!(
        list.receive(page(&[4, 5], "LTE=")),
        PageOutcome::Item { item: 5, fetch_next: false }
    ));
    assert!(matches!(list.poll_next(), PageStep::Item(4)));
    assert!(matches!(list.poll_next(), PageStep::End));
    assert!(matches!(list.poll_next(), PageStep::End));
}

#[test]
fn an_empty_page_ends_the_list() {
    let mut list = list();
    assert!(matches!(list.receive(page(&[], "NTA=")), PageOutcome::End));
    assert!(list.done);
    assert!(matches!(list.poll_next(), PageStep::End));
}

#[test]
fn an_error_changes_nothing() {
    let mut list = list();
    assert!(matches!(
        list.receive(Err(APIError::ErrorStatusCode(500))),
        PageOutcome::Failed(APIError::ErrorStatusCode(500))
    ));
    assert_eq!(cursor(&list), "MA==");
    assert!(matches!(list.poll_next(), PageStep::Await));
}

#[test]
fn every_item_once() {
    let pages = [page(&[1, 2], "b"), page(&[3], "c"), page(&[4, 5, 6], "LTE="), page(&[7], "d")];
    let mut pages = pages.into_iter();
    let mut list = list();
    let mut items = Vec::new();
    loop {
        match list.poll_next() {
            PageStep::Item(item) => items.push(item),
            PageStep::End => break,
            PageStep::Await => match list.receive(pages.next().unwrap()) {
                PageOutcome::Item { item, .. } => items.push(item),
                PageOutcome::End => break,
                PageOutcome::Failed(e) => panic!("{e:?}"),
            },
        }
    }
    assert_eq!(items, vec![2, 1, 3, 6, 5, 4]);
}
