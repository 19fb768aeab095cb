use vstd::prelude::*;

use crate::paging::Page;

verus! {

/// A song of the catalogue.
#[derive(Debug, Default, Clone)]
pub struct Song {
    pub id: u32,
    pub title: String,
    pub artist: String,
    pub language: String,
    pub play_count: u32,
    pub added_on: String,
    pub favorite: bool,
}

/// One play of a song in a room.
#[derive(Debug, Default)]
pub struct Play {
    pub song_id: u32,
    pub play_id: String,
    pub title: String,
    pub artist: String,
    pub location: String,
    pub business_date: String,
    pub enqueue_time: String,
    pub start_time: Option<String>,
    pub end_time: Option<String>,
    pub duration: u32,
    pub position: u32,
    pub favorite: bool,
    pub tags: Option<Vec<String>>,
}

/// The answer to a login.
#[derive(Debug, Default)]
pub struct LoginResponse {
    pub session: String,
    pub email: String,
    pub handle: String,
    pub color: String,
    pub hide_handle_in_queue: bool,
}

/// The queue entry made for an enqueued song.
#[derive(Debug, Default)]
pub struct QueueResponse {
    pub index: u32,
    pub song_id: u32,
    pub play_id: String,
    pub title: String,
    pub artist: String,
    pub duration: u32,
}

/// One page of the user's favorite songs.
#[derive(Debug, Default)]
pub struct FavoritesResponse {
    pub page: u32,
    pub per_page: u32,
    pub total_pages: u32,
    pub total_entries: u32,
    pub songs: Vec<Song>,
}

/// One page of a room's play history.
#[derive(Debug, Default)]
pub struct HistoryResponse {
    pub page: u32,
    pub per_page: u32,
    pub total_pages: u32,
    pub total_entries: u32,
    pub plays: Vec<Play>,
}

impl FavoritesResponse {
    /// The same page, as the paged walk reads it.
    pub fn into_page(self) -> (r: Page<Song>)
        ensures
            r.items@ == self.songs@,
            r.page == self.page,
            r.per_page == self.per_page,
            r.total_pages == self.total_pages,
            r.total_entries == self.total_entries,
    {
        Page {
            items: self.songs,
            page: self.page,
            per_page: self.per_page,
            total_pages: self.total_pages,
            total_entries: self.total_entries,
        }
    }
}

impl HistoryResponse {
    /// The same page, as the paged walk reads it.
    pub fn into_page(self) -> (r: Page<Play>)
        ensures
            r.items@ == self.plays@,
            r.page == self.page,
            r.per_page == self.per_page,
            r.total_pages == self.total_pages,
            r.total_entries == self.total_entries,
    {
        Page {
            items: self.plays,
            page: self.page,
            per_page: self.per_page,
            total_pages: self.total_pages,
            total_entries: self.total_entries,
        }
    }
}

} // verus!
