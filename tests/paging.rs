use std::cell::RefCell;

use voicebox::{collect, Error, FavoritesResponse, HistoryResponse, Page, Play, Song};

fn page(items: Vec<&'static str>, page: u32, per_page: u32, total_pages: u32, total_entries: u32) -> Page<&'static str> {
    Page { items, page, per_page, total_pages, total_entries }
}

#[test]
fn single_page_fetched_once() {
    let calls = RefCell::new(Vec::new());
    let r = collect(|n: u32| {
        calls.borrow_mut().push(n);
        Ok(page(vec!["a", "b", "c"], n, 10, 1, 3))
    });
    assert_eq!(r, Ok(vec!["a", "b", "c"]));
    assert_eq!(*calls.borrow(), vec![1]);
}

#[test]
fn zero_total_pages_is_a_single_page() {
    let calls = RefCell::new(Vec::new());
    let r = collect(|n: u32| {
        calls.borrow_mut().push(n);
        Ok(page(vec![], n, 10, 0, 0))
    });
    assert_eq!(r, Ok(vec![]));
    assert_eq!(*calls.borrow(), vec![1]);
}

#[test]
fn static_pages_fetched_in_order() {
    let calls = RefCell::new(Vec::new());
    let contents = vec![vec!["a", "b"], vec!["c", "d"], vec!["e", "f"], vec!["g"]];
    let r = collect(|n: u32| {
        calls.borrow_mut().push(n);
        Ok(page(contents[(n - 1) as usize].clone(), n, 2, 4, 7))
    });
    assert_eq!(r, Ok(vec!["a", "b", "c", "d", "e", "f", "g"]));
    assert_eq!(*calls.borrow(), vec![1, 2, 3, 4]);
}

#[test]
fn growing_total_extends_walk() {
    let calls = RefCell::new(Vec::new());
    let r = collect(|n: u32| {
        calls.borrow_mut().push(n);
        match n {
            1 => Ok(page(vec!["a", "b"], 1, 2, 2, 4)),
            2 => Ok(page(vec!["c", "d"], 2, 2, 3, 5)),
            _ => Ok(page(vec!["e"], 3, 2, 3, 5)),
        }
    });
    assert_eq!(r, Ok(vec!["a", "b", "c", "d", "e"]));
    assert_eq!(*calls.borrow(), vec![1, 2, 3]);
}

#[test]
fn failure_on_second_page_stops_walk() {
    let calls = RefCell::new(Vec::new());
    let r = collect(|n: u32| {
        calls.borrow_mut().push(n);
        match n {
            1 => Ok(page(vec!["a", "b"], 1, 2, 3, 6)),
            2 => Err(Error::Transport("connection reset".to_string())),
            _ => Ok(page(vec!["e", "f"], 3, 2, 3, 6)),
        }
    });
    assert_eq!(r, Err(Error::Transport("connection reset".to_string())));
    assert_eq!(*calls.borrow(), vec![1, 2]);
}

#[test]
fn malformed_first_page_is_returned() {
    let calls = RefCell::new(Vec::new());
    let r: Result<Vec<&str>, Error> = collect(|n: u32| {
        calls.borrow_mut().push(n);
        Err(Error::MalformedResponse("expected value".to_string()))
    });
    assert_eq!(r, Err(Error::MalformedResponse("expected value".to_string())));
    assert_eq!(*calls.borrow(), vec![1]);
}

#[test]
fn two_walks_over_same_stub_agree() {
    let calls = RefCell::new(Vec::new());
    let stub = |n: u32| {
        calls.borrow_mut().push(n);
        match n {
            1 => Ok(page(vec!["a"], 1, 1, 2, 3)),
            2 => Ok(page(vec!["b"], 2, 1, 3, 3)),
            _ => Ok(page(vec!["c"], 3, 1, 3, 3)),
        }
    };
    let first = collect(&stub);
    let first_calls = calls.replace(Vec::new());
    let second = collect(&stub);
    let second_calls = calls.replace(Vec::new());
    assert_eq!(first, second);
    assert_eq!(first, Ok(vec!["a", "b", "c"]));
    assert_eq!(first_calls, second_calls);
    assert_eq!(first_calls, vec![1, 2, 3]);
}

#[test]
fn two_pages_three_entries() {
    let calls = RefCell::new(Vec::new());
    let r = collect(|n: u32| {
        calls.borrow_mut().push(n);
        match n {
            1 => Ok(page(vec!["A", "B"], 1, 2, 2, 3)),
            _ => Ok(page(vec!["C"], 2, 2, 2, 3)),
        }
    });
    assert_eq!(r, Ok(vec!["A", "B", "C"]));
    assert_eq!(calls.borrow().len(), 2);
}

#[test]
fn favorites_response_becomes_page() {
    let song = Song { id: 7, title: "Song".to_string(), ..Song::default() };
    let resp = FavoritesResponse { page: 2, per_page: 5, total_pages: 3, total_entries: 11, songs: vec![song] };
    let p = resp.into_page();
    assert_eq!((p.page, p.per_page, p.total_pages, p.total_entries), (2, 5, 3, 11));
    assert_eq!(p.items.len(), 1);
    assert_eq!(p.items[0].id, 7);
}

#[test]
fn history_response_becomes_page() {
    let play = Play { song_id: 9, play_id: "play-9".to_string(), ..Play::default() };
    let resp = HistoryResponse { page: 1, per_page: 20, total_pages: 1, total_entries: 1, plays: vec![play] };
    let p = resp.into_page();
    assert_eq!((p.page, p.per_page, p.total_pages, p.total_entries), (1, 20, 1, 1));
    assert_eq!(p.items[0].play_id, "play-9");
}
