//! The listing of recent releases, and the walk through its pages.
//!
//! The listing is read newest first, one page at a time. The walk says
//! which page to ask for next and, after each page, whether it reaches back
//! far enough. The caller fetches the pages.

use vstd::prelude::*;
use vstd::string::*;
use crate::calendar::{instant_of, parse_instant};
use crate::text::{decimal, decimal_text};

verus! {

/// Where the newest page of the listing is read.
pub const LATEST_URL: &'static str = "https://bangumi.moe/api/torrent/latest";

/// Where the other pages of the listing are read, each under its number.
pub const TORRENT_URL: &'static str = "https://bangumi.moe/api/torrent/page";

/// The address of a page of the listing: page 1 is the newest.
pub open spec fn page_address(page: nat) -> Seq<char> {
    if page == 1 {
        LATEST_URL@
    } else {
        TORRENT_URL@ + seq!['/'] + decimal_text(page)
    }
}

/// Writes the address of a page of the listing.
pub fn page_url(page: u32) -> (url: String)
    ensures
        url@ == page_address(page as nat),
{
    if page == 1 {
        String::from_str(LATEST_URL)
    } else {
        proof {
            reveal_strlit("/");
        }
        assert("/"@ =~= seq!['/']);
        let mut url = String::from_str(TORRENT_URL);
        url.append("/");
        let number = decimal(page);
        url.append(number.as_str());
        url
    }
}

/// The most pages one walk asks for.
pub const PAGE_LIMIT: u32 = 99;

/// A release on the listing.
#[derive(Debug)]
pub struct Torrent {
    pub title: String,
    pub publish_time: String,
    pub magnet: String,
}

/// A release as plain values.
pub struct TorrentView {
    pub title: Seq<char>,
    pub publish_time: Seq<char>,
    pub magnet: Seq<char>,
}

impl View for Torrent {
    type V = TorrentView;

    open spec fn view(&self) -> TorrentView {
        TorrentView { title: self.title@, publish_time: self.publish_time@, magnet: self.magnet@ }
    }
}

impl Clone for Torrent {
    fn clone(&self) -> (copy: Torrent)
        ensures
            copy@ == self@,
    {
        Torrent {
            title: self.title.clone(),
            publish_time: self.publish_time.clone(),
            magnet: self.magnet.clone(),
        }
    }
}

/// The releases of a sequence as plain values, in the same order.
pub open spec fn torrent_views(torrents: Seq<Torrent>) -> Seq<TorrentView> {
    torrents.map_values(|t: Torrent| t@)
}

/// Why a walk could not take a page.
#[derive(Debug, PartialEq, Eq, Structural)]
pub enum FetchError {
    /// The page holds no release, so it has no oldest publish time.
    EmptyPage,
    /// The publish time of a release on the page cannot be read.
    BadPublishTime,
    /// The walk had already finished.
    Finished,
}

/// Whether the publish time of every release on the page can be read.
pub open spec fn readable(page: Seq<TorrentView>) -> bool {
    forall|i: int| 0 <= i < page.len() ==> instant_of(#[trigger] page[i].publish_time) is Some
}

/// Whether the oldest release on the page was published at `earliest` or
/// before: some release on it was.
pub open spec fn reaches(page: Seq<TorrentView>, earliest: int) -> bool {
    exists|i: int|
        0 <= i < page.len() && instant_of(#[trigger] page[i].publish_time)->0 <= earliest
}

/// Whether `oldest` is the least of the instants.
pub open spec fn is_least(instants: Seq<i64>, oldest: i64) -> bool {
    &&& instants.contains(oldest)
    &&& forall|i: int| 0 <= i < instants.len() ==> oldest <= instants[i]
}

/// The least of the instants, or `None` where there is none.
pub fn oldest(instants: &Vec<i64>) -> (least: Option<i64>)
    ensures
        least is None <==> instants.len() == 0,
        least matches Some(m) ==> is_least(instants@, m),
{
    if instants.len() == 0 {
        return None;
    }
    let mut least: i64 = instants[0];
    let mut i: usize = 1;
    while i < instants.len()
        invariant
            1 <= i <= instants.len(),
            exists|j: int| 0 <= j < i && instants[j] == least,
            forall|j: int| 0 <= j < i ==> least <= instants[j],
        decreases instants.len() - i,
    {
        if instants[i] < least {
            least = instants[i];
        }
        i += 1;
    }
    Some(least)
}

/// Whether the walk ends after a page whose oldest release was published at
/// `oldest`, the walk having taken `pages` pages with it: the page reaches
/// back to `earliest`, or the page limit is reached.
pub fn stops(oldest: i64, earliest: i64, pages: u32) -> (stop: bool)
    ensures
        stop == (oldest <= earliest || pages >= PAGE_LIMIT),
{
    oldest <= earliest || pages >= PAGE_LIMIT
}

/// Reads the publish time of every release on the page, in order, or
/// returns `None` where one of them cannot be read.
pub fn publish_instants(page: &Vec<Torrent>) -> (instants: Option<Vec<i64>>)
    ensures
        instants is Some <==> readable(torrent_views(page@)),
        instants matches Some(v) ==> {
            &&& v.len() == page.len()
            &&& forall|i: int|
                0 <= i < v.len() ==> instant_of(page[i]@.publish_time) == Some(
                    #[trigger] v[i] as int,
                )
        },
{
    let mut instants: Vec<i64> = Vec::new();
    let mut i: usize = 0;
    while i < page.len()
        invariant
            i <= page.len(),
            instants.len() == i,
            forall|j: int|
                0 <= j < i ==> instant_of(page[j]@.publish_time) == Some(
                    #[trigger] instants[j] as int,
                ),
        decreases page.len() - i,
    {
        match parse_instant(page[i].publish_time.as_str()) {
            Some(at) => {
                instants.push(at);
            },
            None => {
                assert(torrent_views(page@)[i as int] == page[i as int]@);
                assert(instant_of(torrent_views(page@)[i as int].publish_time) is None);
                return None;
            },
        }
        i += 1;
    }
    assert forall|j: int| 0 <= j < page.len() implies instant_of(
        #[trigger] torrent_views(page@)[j].publish_time,
    ) is Some by {
        assert(instant_of(page[j]@.publish_time) == Some(instants[j] as int));
    }
    Some(instants)
}

/// A walk through the pages of the listing, newest first, back to a given
/// time.
pub struct PageWalk {
    earliest: i64,
    pages: u32,
    torrents: Vec<Torrent>,
    finished: bool,
}

impl PageWalk {
    #[verifier::type_invariant]
    spec fn bounded(self) -> bool {
        &&& self.pages <= PAGE_LIMIT
        &&& self.pages == PAGE_LIMIT ==> self.finished
    }

    /// The time the walk reaches back to.
    pub closed spec fn earliest(&self) -> int {
        self.earliest as int
    }

    /// How many pages the walk has taken.
    pub closed spec fn pages(&self) -> nat {
        self.pages as nat
    }

    /// Whether the walk asks for no further page.
    pub closed spec fn finished(&self) -> bool {
        self.finished
    }

    /// The releases of the pages taken, in the order they came.
    pub closed spec fn collected(&self) -> Seq<TorrentView> {
        torrent_views(self.torrents@)
    }

    /// Starts a walk back to `earliest`, counted in seconds since
    /// 1970-01-01 00:00:00 UTC as publish times are.
    pub fn new(earliest: i64) -> (walk: PageWalk)
        ensures
            walk.earliest() == earliest,
            walk.pages() == 0,
            !walk.finished(),
            walk.collected() == Seq::<TorrentView>::empty(),
    {
        let walk = PageWalk { earliest, pages: 0, torrents: Vec::new(), finished: false };
        assert(walk.collected() =~= Seq::<TorrentView>::empty());
        walk
    }

    /// The page to fetch next, or `None` once the walk has finished. Page 1
    /// is the newest; no page beyond [`PAGE_LIMIT`] is ever asked for.
    pub fn next_page(&self) -> (page: Option<u32>)
        ensures
            page == if self.finished() {
                None
            } else {
                Some((self.pages() + 1) as u32)
            },
            self.pages() <= PAGE_LIMIT,
            page matches Some(n) ==> 1 <= n <= PAGE_LIMIT,
    {
        proof {
            use_type_invariant(self);
        }
        if self.finished {
            None
        } else {
            Some(self.pages + 1)
        }
    }

    /// Whether the walk asks for no further page.
    pub fn is_finished(&self) -> (done: bool)
        ensures
            done == self.finished(),
            self.pages() <= PAGE_LIMIT,
            self.pages() == PAGE_LIMIT ==> done,
    {
        proof {
            use_type_invariant(self);
        }
        self.finished
    }

    /// Takes the page that was fetched.
    ///
    /// The page is refused, and the walk left as it was, where the walk had
    /// finished, where the page is empty, or where a publish time on it
    /// cannot be read. Otherwise its releases are added to those collected,
    /// and the walk finishes if the page reaches back to the earliest time
    /// or is the last that the page limit allows.
    pub fn accept(&mut self, page: Vec<Torrent>) -> (result: Result<(), FetchError>)
        ensures
            final(self).earliest() == old(self).earliest(),
            final(self).pages() <= PAGE_LIMIT,
            result is Ok <==> !old(self).finished() && page.len() > 0 && readable(
                torrent_views(page@),
            ),
            result is Ok ==> {
                &&& final(self).collected() == old(self).collected() + torrent_views(page@)
                &&& final(self).pages() == old(self).pages() + 1
                &&& final(self).finished() <==> reaches(
                    torrent_views(page@),
                    old(self).earliest(),
                ) || final(self).pages() == PAGE_LIMIT
            },
            result matches Err(e) ==> {
                &&& final(self).collected() == old(self).collected()
                &&& final(self).pages() == old(self).pages()
                &&& final(self).finished() == old(self).finished()
                &&& e == if old(self).finished() {
                    FetchError::Finished
                } else if page.len() == 0 {
                    FetchError::EmptyPage
                } else {
                    FetchError::BadPublishTime
                }
            },
    {
        proof {
            use_type_invariant(&*self);
        }
        if self.finished {
            return Err(FetchError::Finished);
        }
        if page.len() == 0 {
            return Err(FetchError::EmptyPage);
        }
        let instants = match publish_instants(&page) {
            Some(instants) => instants,
            None => {
                return Err(FetchError::BadPublishTime);
            },
        };
        let least: i64 = match oldest(&instants) {
            Some(least) => least,
            None => {
                return Err(FetchError::EmptyPage);
            },
        };
        let stop = stops(least, self.earliest, self.pages + 1);
        proof {
            let views = torrent_views(page@);
            if least <= self.earliest {
                let j = choose|j: int| 0 <= j < instants.len() && instants[j] == least;
                assert(instant_of(page[j]@.publish_time) == Some(instants[j] as int));
                assert(views[j] == page[j]@);
                assert(instant_of(views[j].publish_time)->0 <= self.earliest);
            } else {
                assert forall|i: int| 0 <= i < views.len() implies !(instant_of(
                    #[trigger] views[i].publish_time,
                )->0 <= self.earliest) by {
                    assert(instant_of(page[i]@.publish_time) == Some(instants[i] as int));
                }
            }
            assert(stop == (reaches(views, self.earliest as int) || self.pages + 1
                == PAGE_LIMIT));
        }
        let ghost before = self.torrents@;
        let mut page = page;
        let ghost added = page@;
        let mut torrents: Vec<Torrent> = Vec::new();
        core::mem::swap(&mut torrents, &mut self.torrents);
        torrents.append(&mut page);
        assert(torrent_views(torrents@) =~= torrent_views(before) + torrent_views(added));
        *self = PageWalk {
            earliest: self.earliest,
            pages: self.pages + 1,
            torrents,
            finished: stop,
        };
        Ok(())
    }

    /// Ends the walk and hands over the releases collected.
    pub fn into_torrents(self) -> (torrents: Vec<Torrent>)
        ensures
            torrent_views(torrents@) == self.collected(),
    {
        self.torrents
    }
}

} // verus!
