//! Refresh bookkeeping against idempotent storage.
//!
//! The persistent storage layer is an external collaborator; the one
//! contract the engine relies on is that article insertion is atomic and
//! idempotent per `(feed_id, guid)`. This module gives that contract an
//! in-memory reference model, and builds the coordinator's decisions on
//! it: mapping a parsed feed to storage records, insert-or-ignore
//! ingestion that counts only true insertions, and batch refresh with
//! per-feed failure isolation.

use vstd::prelude::*;
use vstd::string::*;

use crate::date::UtcTime;
use crate::discovery::DiscoveredFeed;
use crate::model::{error_message, EntryModel, ErrorModel, Feed, FeedEntry, FeedError, FeedModel};

verus! {

/// The outcome of an insert-or-ignore article write.
#[derive(Debug, Clone, Copy, PartialEq, Eq, Structural)]
pub enum InsertResult {
    /// The article was new and was written under this identifier.
    Inserted(i64),
    /// An article with the same `(feed_id, guid)` already existed.
    Ignored,
}

/// A feed record ready to be persisted.
pub struct NewFeed {
    pub title: String,
    pub folder_id: Option<i64>,
    pub feed_url: String,
    pub site_url: Option<String>,
    pub description: Option<String>,
    pub language: Option<String>,
    pub favicon_url: Option<String>,
    pub last_build_date: Option<UtcTime>,
}

/// The mathematical shape of a feed record.
#[verifier::ext_equal]
pub ghost struct NewFeedModel {
    pub title: Seq<char>,
    pub folder_id: Option<i64>,
    pub feed_url: Seq<char>,
    pub site_url: Option<Seq<char>>,
    pub description: Option<Seq<char>>,
    pub language: Option<Seq<char>>,
    pub favicon_url: Option<Seq<char>>,
    pub last_build_date: Option<UtcTime>,
}

impl View for NewFeed {
    type V = NewFeedModel;

    open spec fn view(&self) -> NewFeedModel {
        NewFeedModel {
            title: self.title@,
            folder_id: self.folder_id,
            feed_url: self.feed_url@,
            site_url: self.site_url.deep_view(),
            description: self.description.deep_view(),
            language: self.language.deep_view(),
            favicon_url: self.favicon_url.deep_view(),
            last_build_date: self.last_build_date,
        }
    }
}

/// An article record ready to be persisted.
pub struct NewArticle {
    pub feed_id: i64,
    pub guid: String,
    pub title: String,
    pub link: Option<String>,
    pub author: Option<String>,
    pub summary: Option<String>,
    pub content: Option<String>,
    pub image_url: Option<String>,
    pub published_at: Option<UtcTime>,
}

/// The mathematical shape of an article record.
#[verifier::ext_equal]
pub ghost struct NewArticleModel {
    pub feed_id: i64,
    pub guid: Seq<char>,
    pub title: Seq<char>,
    pub link: Option<Seq<char>>,
    pub author: Option<Seq<char>>,
    pub summary: Option<Seq<char>>,
    pub content: Option<Seq<char>>,
    pub image_url: Option<Seq<char>>,
    pub published_at: Option<UtcTime>,
}

impl View for NewArticle {
    type V = NewArticleModel;

    open spec fn view(&self) -> NewArticleModel {
        NewArticleModel {
            feed_id: self.feed_id,
            guid: self.guid@,
            title: self.title@,
            link: self.link.deep_view(),
            author: self.author.deep_view(),
            summary: self.summary.deep_view(),
            content: self.content.deep_view(),
            image_url: self.image_url.deep_view(),
            published_at: self.published_at,
        }
    }
}

/// The feed record a parsed feed maps to: the site URL is the feed's link
/// where that is non-empty, and absent otherwise.
pub open spec fn feed_record_spec(f: FeedModel) -> NewFeedModel {
    NewFeedModel {
        title: f.title,
        folder_id: None,
        feed_url: f.feed_url,
        site_url: if f.link.len() > 0 {
            Some(f.link)
        } else {
            None
        },
        description: f.description,
        language: f.language,
        favicon_url: None,
        last_build_date: f.last_updated,
    }
}

/// Map a parsed feed to the record the storage layer receives.
pub fn feed_record(parsed: &Feed) -> (r: NewFeed)
    ensures
        r@ == feed_record_spec(parsed@),
{
    let site_url = if parsed.link.as_str().is_empty() {
        None
    } else {
        Some(parsed.link.clone())
    };
    let r = NewFeed {
        title: parsed.title.clone(),
        folder_id: None,
        feed_url: parsed.feed_url.clone(),
        site_url,
        description: clone_opt(&parsed.description),
        language: clone_opt(&parsed.language),
        favicon_url: None,
        last_build_date: parsed.last_updated,
    };
    proof {
        assert(r@ =~~= feed_record_spec(parsed@));
    }
    r
}

/// Clone an optional string.
fn clone_opt(s: &Option<String>) -> (r: Option<String>)
    ensures
        r.deep_view() == s.deep_view(),
{
    match s {
        Some(v) => Some(v.clone()),
        None => None,
    }
}

/// The article record an entry maps to: an empty link is stored as absent.
pub open spec fn entry_article_spec(feed_id: i64, e: EntryModel) -> NewArticleModel {
    NewArticleModel {
        feed_id,
        guid: e.id,
        title: e.title,
        link: if e.link.len() > 0 {
            Some(e.link)
        } else {
            None
        },
        author: e.author,
        summary: e.summary,
        content: e.content,
        image_url: e.image_url,
        published_at: e.published,
    }
}

/// Map one parsed entry to the article record the storage layer receives.
pub fn entry_article(feed_id: i64, entry: &FeedEntry) -> (r: NewArticle)
    ensures
        r@ == entry_article_spec(feed_id, entry@),
{
    let link = if entry.link.as_str().is_empty() {
        None
    } else {
        Some(entry.link.clone())
    };
    let r = NewArticle {
        feed_id,
        guid: entry.id.clone(),
        title: entry.title.clone(),
        link,
        author: clone_opt(&entry.author),
        summary: clone_opt(&entry.summary),
        content: clone_opt(&entry.content),
        image_url: clone_opt(&entry.image_url),
        published_at: entry.published,
    };
    proof {
        assert(r@ =~~= entry_article_spec(feed_id, entry@));
    }
    r
}

/// The feed URL an add-feed operation fetches: discovery's first candidate
/// if it produced any, else the literal URL the user supplied.
pub open spec fn chosen_url(discovered: Seq<Seq<char>>, url: Seq<char>) -> Seq<char> {
    if discovered.len() > 0 {
        discovered[0]
    } else {
        url
    }
}

/// Pick the URL an add-feed operation fetches.
pub fn choose_feed_url(discovered: &Vec<DiscoveredFeed>, url: &str) -> (r: String)
    ensures
        r@ == chosen_url(discovered.deep_view(), url@),
{
    if discovered.len() > 0 {
        discovered[0].url.clone()
    } else {
        url.to_owned()
    }
}

// --- The storage reference model ---

/// The mathematical shape of the store: the feed records in subscription
/// order, the `(feed_id, guid)` keys present in insertion order, and the
/// feeds marked as fetched, in mark order.
#[verifier::ext_equal]
pub ghost struct StoreModel {
    pub feeds: Seq<NewFeedModel>,
    pub keys: Seq<(i64, Seq<char>)>,
    pub marks: Seq<i64>,
}

/// An in-memory reference model of the storage collaborator: it keeps just
/// enough state to exhibit the contract the engine relies on, insert-or-
/// ignore article writes above all.
pub struct ArticleStore {
    feeds: Vec<NewFeed>,
    keys: Vec<(i64, String)>,
    marks: Vec<i64>,
}

/// The model of one stored feed record.
pub open spec fn feed_model_of(f: NewFeed) -> NewFeedModel {
    f.view()
}

impl View for ArticleStore {
    type V = StoreModel;

    closed spec fn view(&self) -> StoreModel {
        StoreModel {
            feeds: Seq::new(self.feeds@.len(), |i: int| self.feeds@[i]@),
            keys: self.keys.deep_view(),
            marks: self.marks@,
        }
    }
}

/// Is the `(feed_id, guid)` key present?
pub open spec fn store_contains(keys: Seq<(i64, Seq<char>)>, feed_id: i64, guid: Seq<char>) -> bool {
    exists|k: int| 0 <= k < keys.len() && #[trigger] keys[k] == (feed_id, guid)
}

/// Insert-or-ignore at the model level: a present key leaves the store
/// unchanged.
pub open spec fn spec_insert(keys: Seq<(i64, Seq<char>)>, feed_id: i64, guid: Seq<char>) -> Seq<
    (i64, Seq<char>),
> {
    if store_contains(keys, feed_id, guid) {
        keys
    } else {
        keys.push((feed_id, guid))
    }
}

/// The identifier a new article gets: its insertion ordinal, saturated at
/// the widest storage identifier.
pub open spec fn id_of(n: int) -> i64 {
    if n <= i64::MAX {
        n as i64
    } else {
        i64::MAX
    }
}

impl ArticleStore {
    /// An empty store.
    pub fn new() -> (r: ArticleStore)
        ensures
            r@.feeds == Seq::<NewFeedModel>::empty(),
            r@.keys == Seq::<(i64, Seq<char>)>::empty(),
            r@.marks == Seq::<i64>::empty(),
    {
        let r = ArticleStore { feeds: Vec::new(), keys: Vec::new(), marks: Vec::new() };
        proof {
            assert(r@.feeds =~= Seq::<NewFeedModel>::empty());
            assert(r@.keys =~= Seq::<(i64, Seq<char>)>::empty());
        }
        r
    }

    /// Persist a feed record, obtaining its identifier.
    pub fn insert_feed(&mut self, feed: NewFeed) -> (id: i64)
        ensures
            final(self)@.feeds == old(self)@.feeds.push(feed@),
            final(self)@.keys == old(self)@.keys,
            final(self)@.marks == old(self)@.marks,
            id == id_of(old(self)@.feeds.len() as int),
    {
        let id: i64 = if (self.feeds.len() as u64) <= (i64::MAX as u64) {
            self.feeds.len() as i64
        } else {
            i64::MAX
        };
        let ghost before = self@.feeds;
        self.feeds.push(feed);
        proof {
            assert(self@.feeds =~= before.push(self.feeds@.last()@));
        }
        id
    }

    /// The URL a feed was subscribed under, by its identifier; unknown
    /// identifiers have none.
    pub fn get_feed_url(&self, id: i64) -> (r: Option<String>)
        ensures
            0 <= id < self@.feeds.len() ==> (r matches Some(u) && u@ == self@.feeds[
                id as int
            ].feed_url),
            !(0 <= id < self@.feeds.len()) ==> r is None,
    {
        if id >= 0 && (id as u64) < (self.feeds.len() as u64) {
            let ix = id as usize;
            Some(self.feeds[ix].feed_url.clone())
        } else {
            None
        }
    }

    /// Record a feed's favicon; an unknown identifier changes nothing.
    pub fn update_feed_favicon(&mut self, id: i64, favicon_url: String)
        ensures
            final(self)@.keys == old(self)@.keys,
            final(self)@.marks == old(self)@.marks,
            0 <= id < old(self)@.feeds.len() ==> final(self)@.feeds == old(self)@.feeds.update(
                id as int,
                (NewFeedModel { favicon_url: Some(favicon_url@), ..old(self)@.feeds[id as int] }),
            ),
            !(0 <= id < old(self)@.feeds.len()) ==> final(self)@.feeds == old(self)@.feeds,
    {
        if id >= 0 && (id as u64) < (self.feeds.len() as u64) {
            let ix = id as usize;
            let rec = &mut self.feeds[ix];
            rec.favicon_url = Some(favicon_url);
            proof {
                assert(self@.feeds =~= old(self)@.feeds.update(
                    id as int,
                    (NewFeedModel {
                        favicon_url: Some(favicon_url@),
                        ..old(self)@.feeds[id as int]
                    }),
                ));
            }
        }
    }

    /// Is the `(feed_id, guid)` key present?
    fn contains_key(&self, feed_id: i64, guid: &String) -> (r: bool)
        ensures
            r == store_contains(self@.keys, feed_id, guid@),
    {
        let ghost all = self@.keys;
        let mut i: usize = 0;
        while i < self.keys.len()
            invariant
                all == self@.keys,
                all.len() == self.keys@.len(),
                i <= self.keys@.len(),
                forall|k: int| 0 <= k < i ==> #[trigger] all[k] != (feed_id, guid@),
            decreases self.keys@.len() - i,
        {
            if self.keys[i].0 == feed_id && self.keys[i].1 == *guid {
                proof {
                    assert(all[i as int] == (feed_id, guid@));
                }
                return true;
            }
            proof {
                assert(all[i as int] != (feed_id, guid@));
            }
            i = i + 1;
        }
        false
    }

    /// Insert an article under the uniqueness of `(feed_id, guid)`: a new
    /// key is written and handed its identifier, a pre-existing key is
    /// ignored and the store is left unchanged.
    pub fn insert_article(&mut self, article: &NewArticle) -> (r: InsertResult)
        ensures
            final(self)@.keys == spec_insert(old(self)@.keys, article.feed_id, article@.guid),
            final(self)@.marks == old(self)@.marks,
            final(self)@.feeds == old(self)@.feeds,
            r == (if store_contains(old(self)@.keys, article.feed_id, article@.guid) {
                InsertResult::Ignored
            } else {
                InsertResult::Inserted(id_of(old(self)@.keys.len() as int))
            }),
    {
        if self.contains_key(article.feed_id, &article.guid) {
            InsertResult::Ignored
        } else {
            let id: i64 = if (self.keys.len() as u64) <= (i64::MAX as u64) {
                self.keys.len() as i64
            } else {
                i64::MAX
            };
            let ghost before = self@.keys;
            self.keys.push((article.feed_id, article.guid.clone()));
            proof {
                assert(self@.keys =~= before.push((article.feed_id, article@.guid)));
            }
            InsertResult::Inserted(id)
        }
    }

    /// Record that a feed's refresh was attempted now.
    pub fn mark_fetched(&mut self, feed_id: i64)
        ensures
            final(self)@.keys == old(self)@.keys,
            final(self)@.marks == old(self)@.marks.push(feed_id),
            final(self)@.feeds == old(self)@.feeds,
    {
        self.marks.push(feed_id);
    }

    /// How many articles the store holds.
    pub fn article_count(&self) -> (r: usize)
        ensures
            r == self@.keys.len(),
    {
        self.keys.len()
    }
}

// --- Ingestion ---

/// The fold of insert-or-ignore over a feed's entries: the keys after all
/// inserts, and how many were true insertions.
pub open spec fn ingest_spec(
    keys: Seq<(i64, Seq<char>)>,
    feed_id: i64,
    entries: Seq<EntryModel>,
) -> (Seq<(i64, Seq<char>)>, int)
    decreases entries.len(),
{
    if entries.len() == 0 {
        (keys, 0)
    } else {
        let newly: int = if store_contains(keys, feed_id, entries[0].id) {
            0
        } else {
            1
        };
        let rest = ingest_spec(spec_insert(keys, feed_id, entries[0].id), feed_id, entries.drop_first());
        (rest.0, newly + rest.1)
    }
}

/// Insert every entry of a parsed feed, insert-or-ignore, counting only
/// true insertions.
pub fn ingest_entries(store: &mut ArticleStore, feed_id: i64, entries: &Vec<FeedEntry>) -> (count:
    i64)
    requires
        entries@.len() <= i64::MAX,
    ensures
        final(store)@.keys == ingest_spec(old(store)@.keys, feed_id, entries.deep_view()).0,
        final(store)@.marks == old(store)@.marks,
        final(store)@.feeds == old(store)@.feeds,
        count == ingest_spec(old(store)@.keys, feed_id, entries.deep_view()).1,
{
    let ghost all = entries.deep_view();
    let ghost goal = ingest_spec(store@.keys, feed_id, all);
    let mut count: i64 = 0;
    let mut i: usize = 0;
    proof {
        assert(all.skip(0) =~= all);
    }
    while i < entries.len()
        invariant
            all == entries.deep_view(),
            all.len() == entries@.len(),
            all.len() <= i64::MAX,
            i <= entries@.len(),
            0 <= count <= i,
            store@.marks == old(store)@.marks,
            store@.feeds == old(store)@.feeds,
            goal == ingest_spec(old(store)@.keys, feed_id, all),
            goal.0 == ingest_spec(store@.keys, feed_id, all.skip(i as int)).0,
            goal.1 == count + ingest_spec(store@.keys, feed_id, all.skip(i as int)).1,
        decreases entries@.len() - i,
    {
        proof {
            assert(all.skip(i as int)[0] == all[i as int]);
            assert(all.skip(i as int).drop_first() =~= all.skip(i + 1));
        }
        let article = entry_article(feed_id, &entries[i]);
        let outcome = store.insert_article(&article);
        match outcome {
            InsertResult::Inserted(_) => {
                count = count + 1;
            },
            InsertResult::Ignored => {
            },
        }
        i = i + 1;
    }
    proof {
        assert(all.skip(i as int) =~= Seq::<EntryModel>::empty());
    }
    count
}

// --- Refresh ---

/// The outcome of refreshing one feed: how many articles were new, and the
/// recorded error where the fetch or parse failed.
pub struct RefreshResult {
    pub feed_id: i64,
    pub new_articles: i64,
    pub error: Option<String>,
}

/// The mathematical shape of a refresh outcome.
#[verifier::ext_equal]
pub ghost struct RefreshModel {
    pub feed_id: i64,
    pub new_articles: int,
    pub error: Option<Seq<char>>,
}

impl View for RefreshResult {
    type V = RefreshModel;

    open spec fn view(&self) -> RefreshModel {
        RefreshModel {
            feed_id: self.feed_id,
            new_articles: self.new_articles as int,
            error: self.error.deep_view(),
        }
    }
}

impl DeepView for RefreshResult {
    type V = RefreshModel;

    open spec fn deep_view(&self) -> RefreshModel {
        self@
    }
}

/// What refreshing one feed does to the store and reports back: a parsed
/// feed has its entries ingested and the feed marked as fetched, whatever
/// the count; a failed fetch or parse changes nothing and records the
/// error, with zero new articles.
pub open spec fn refresh_spec(
    st: StoreModel,
    feed_id: i64,
    parsed: Result<FeedModel, ErrorModel>,
) -> (StoreModel, RefreshModel) {
    match parsed {
        Ok(f) => {
            let outcome = ingest_spec(st.keys, feed_id, f.entries);
            (
                StoreModel { keys: outcome.0, marks: st.marks.push(feed_id), ..st },
                RefreshModel { feed_id, new_articles: outcome.1, error: None },
            )
        },
        Err(e) => (
            st,
            RefreshModel { feed_id, new_articles: 0, error: Some(error_message(e)) },
        ),
    }
}

/// The model of a parse outcome handed to a refresh.
pub open spec fn parsed_model(parsed: Result<Feed, FeedError>) -> Result<FeedModel, ErrorModel> {
    match parsed {
        Ok(f) => Ok(f@),
        Err(e) => Err(e@),
    }
}

/// Refresh one feed against the store, given the outcome of fetching and
/// parsing its document. Insertion failures cannot occur in the model; a
/// fetch or parse failure yields zero new articles and the recorded error.
pub fn refresh_with_parsed(
    store: &mut ArticleStore,
    feed_id: i64,
    parsed: Result<Feed, FeedError>,
) -> (r: RefreshResult)
    requires
        (parsed matches Ok(f) ==> f@.entries.len() <= i64::MAX),
    ensures
        final(store)@ == refresh_spec(old(store)@, feed_id, parsed_model(parsed)).0,
        r@ == refresh_spec(old(store)@, feed_id, parsed_model(parsed)).1,
{
    match parsed {
        Ok(feed) => {
            let count = ingest_entries(store, feed_id, &feed.entries);
            store.mark_fetched(feed_id);
            let r = RefreshResult { feed_id, new_articles: count, error: None };
            proof {
                assert(store@ =~~= refresh_spec(old(store)@, feed_id, parsed_model(Ok(feed))).0);
                assert(r@ =~~= refresh_spec(old(store)@, feed_id, parsed_model(Ok(feed))).1);
            }
            r
        },
        Err(e) => {
            let msg = e.message();
            let r = RefreshResult { feed_id, new_articles: 0, error: Some(msg) };
            proof {
                assert(r@ =~~= refresh_spec(old(store)@, feed_id, parsed_model(Err(e))).1);
            }
            r
        },
    }
}

/// One feed of a batch refresh: its identifier and the outcome of fetching
/// and parsing its document.
pub struct RefreshInput {
    pub feed_id: i64,
    pub parsed: Result<Feed, FeedError>,
}

/// The mathematical shape of a batch-refresh input.
#[verifier::ext_equal]
pub ghost struct RefreshInputModel {
    pub feed_id: i64,
    pub parsed: Result<FeedModel, ErrorModel>,
}

impl View for RefreshInput {
    type V = RefreshInputModel;

    open spec fn view(&self) -> RefreshInputModel {
        RefreshInputModel { feed_id: self.feed_id, parsed: parsed_model_ref(&self.parsed) }
    }
}

impl DeepView for RefreshInput {
    type V = RefreshInputModel;

    open spec fn deep_view(&self) -> RefreshInputModel {
        self@
    }
}

/// The model of a parse outcome, from behind a reference.
pub open spec fn parsed_model_ref(parsed: &Result<Feed, FeedError>) -> Result<
    FeedModel,
    ErrorModel,
> {
    match parsed {
        Ok(f) => Ok(f@),
        Err(e) => Err(e@),
    }
}

/// What a batch refresh does: each feed is refreshed independently, in
/// order, and every feed gets a result, success or failure.
pub open spec fn refresh_all_spec(st: StoreModel, inputs: Seq<RefreshInputModel>) -> (
    StoreModel,
    Seq<RefreshModel>,
)
    decreases inputs.len(),
{
    if inputs.len() == 0 {
        (st, Seq::empty())
    } else {
        let first = refresh_spec(st, inputs[0].feed_id, inputs[0].parsed);
        let rest = refresh_all_spec(first.0, inputs.drop_first());
        (rest.0, seq![first.1] + rest.1)
    }
}

/// Refresh every feed of the batch against the store, one result per feed,
/// in input order. A feed whose fetch or parse failed contributes zero new
/// articles and its error, and does not stop the rest.
pub fn refresh_all_with_parsed(store: &mut ArticleStore, inputs: Vec<RefreshInput>) -> (results:
    Vec<RefreshResult>)
    requires
        forall|k: int|
            0 <= k < inputs@.len() ==> ((#[trigger] inputs@[k]).parsed matches Ok(f)
                ==> f@.entries.len() <= i64::MAX),
    ensures
        final(store)@ == refresh_all_spec(old(store)@, inputs.deep_view()).0,
        results.deep_view() == refresh_all_spec(old(store)@, inputs.deep_view()).1,
{
    let ghost all = inputs.deep_view();
    let ghost goal = refresh_all_spec(store@, all);
    let mut inputs = inputs;
    let mut results: Vec<RefreshResult> = Vec::new();
    proof {
        assert(all.skip(0) =~= all);
        assert(results.deep_view() =~= Seq::<RefreshModel>::empty());
    }
    let ghost mut i: int = 0;
    while inputs.len() > 0
        invariant
            0 <= i <= all.len(),
            inputs.deep_view() =~= all.skip(i),
            forall|k: int|
                0 <= k < inputs@.len() ==> ((#[trigger] inputs@[k]).parsed matches Ok(f)
                    ==> f@.entries.len() <= i64::MAX),
            goal == refresh_all_spec(old(store)@, all),
            goal.0 == refresh_all_spec(store@, all.skip(i)).0,
            goal.1 == results.deep_view() + refresh_all_spec(store@, all.skip(i)).1,
        decreases inputs@.len(),
    {
        proof {
            assert(all.skip(i)[0] == inputs.deep_view()[0]);
            assert(inputs.deep_view()[0] == inputs@[0]@);
        }
        let inp = inputs.remove(0);
        proof {
            assert(inputs.deep_view() =~= all.skip(i).drop_first());
            assert(all.skip(i).drop_first() =~= all.skip(i + 1));
        }
        let ghost before = results.deep_view();
        let ghost store_before = store@;
        let r = refresh_with_parsed(store, inp.feed_id, inp.parsed);
        results.push(r);
        proof {
            i = i + 1;
            assert(results.deep_view() =~= before.push(
                refresh_spec(store_before, all.skip(i - 1)[0].feed_id, all.skip(i - 1)[0].parsed).1,
            ));
            assert(goal.1 =~= results.deep_view() + refresh_all_spec(store@, all.skip(i)).1);
        }
    }
    proof {
        assert(all.skip(i) =~= Seq::<RefreshInputModel>::empty());
        assert(goal.1 =~= results.deep_view());
    }
    results
}

// --- Laws ---

/// Adding a key never removes one: whatever was present stays present.
proof fn lemma_insert_preserves(
    keys: Seq<(i64, Seq<char>)>,
    feed_id: i64,
    guid: Seq<char>,
    f2: i64,
    g2: Seq<char>,
)
    requires
        store_contains(keys, f2, g2),
    ensures
        store_contains(spec_insert(keys, feed_id, guid), f2, g2),
{
    let k = choose|k: int| 0 <= k < keys.len() && #[trigger] keys[k] == (f2, g2);
    assert(spec_insert(keys, feed_id, guid)[k] == (f2, g2));
}

/// Law: article insertion is idempotent per `(feed_id, guid)`: inserting a
/// key makes it present, and inserting a present key changes nothing, so
/// the same record inserted twice is written once and then ignored.
pub proof fn lemma_insert_idempotent(keys: Seq<(i64, Seq<char>)>, feed_id: i64, guid: Seq<char>)
    ensures
        store_contains(spec_insert(keys, feed_id, guid), feed_id, guid),
        spec_insert(spec_insert(keys, feed_id, guid), feed_id, guid) == spec_insert(
            keys,
            feed_id,
            guid,
        ),
{
    if !store_contains(keys, feed_id, guid) {
        let pushed = keys.push((feed_id, guid));
        assert(pushed[keys.len() as int] == (feed_id, guid));
    }
}

/// Ingestion never removes a key.
proof fn lemma_ingest_preserves(
    keys: Seq<(i64, Seq<char>)>,
    feed_id: i64,
    entries: Seq<EntryModel>,
    f2: i64,
    g2: Seq<char>,
)
    requires
        store_contains(keys, f2, g2),
    ensures
        store_contains(ingest_spec(keys, feed_id, entries).0, f2, g2),
    decreases entries.len(),
{
    if entries.len() > 0 {
        lemma_insert_preserves(keys, feed_id, entries[0].id, f2, g2);
        lemma_ingest_preserves(
            spec_insert(keys, feed_id, entries[0].id),
            feed_id,
            entries.drop_first(),
            f2,
            g2,
        );
    }
}

/// After ingesting a feed's entries, every one of their keys is present.
proof fn lemma_ingest_contains(
    keys: Seq<(i64, Seq<char>)>,
    feed_id: i64,
    entries: Seq<EntryModel>,
)
    ensures
        forall|k: int|
            0 <= k < entries.len() ==> store_contains(
                ingest_spec(keys, feed_id, entries).0,
                feed_id,
                (#[trigger] entries[k]).id,
            ),
    decreases entries.len(),
{
    if entries.len() > 0 {
        let keys1 = spec_insert(keys, feed_id, entries[0].id);
        lemma_insert_idempotent(keys, feed_id, entries[0].id);
        lemma_ingest_preserves(keys1, feed_id, entries.drop_first(), feed_id, entries[0].id);
        lemma_ingest_contains(keys1, feed_id, entries.drop_first());
        assert forall|k: int| 0 <= k < entries.len() implies store_contains(
            ingest_spec(keys, feed_id, entries).0,
            feed_id,
            (#[trigger] entries[k]).id,
        ) by {
            if k > 0 {
                assert(entries.drop_first()[k - 1] == entries[k]);
            }
        }
    }
}

/// Ingesting entries whose keys are all present changes nothing and counts
/// nothing.
proof fn lemma_ingest_noop(keys: Seq<(i64, Seq<char>)>, feed_id: i64, entries: Seq<EntryModel>)
    requires
        forall|k: int|
            0 <= k < entries.len() ==> store_contains(
                keys,
                feed_id,
                (#[trigger] entries[k]).id,
            ),
    ensures
        ingest_spec(keys, feed_id, entries) == (keys, 0int),
    decreases entries.len(),
{
    if entries.len() > 0 {
        assert(store_contains(keys, feed_id, entries[0].id));
        assert(forall|k: int|
            0 <= k < entries.drop_first().len() ==> store_contains(
                keys,
                feed_id,
                (#[trigger] entries.drop_first()[k]).id,
            ));
        lemma_ingest_noop(keys, feed_id, entries.drop_first());
    }
}

/// Law: ingestion is idempotent. Running the same feed's entries against
/// the store a second time inserts nothing and counts zero new articles.
pub proof fn lemma_ingest_idempotent(
    keys: Seq<(i64, Seq<char>)>,
    feed_id: i64,
    entries: Seq<EntryModel>,
)
    ensures
        ingest_spec(ingest_spec(keys, feed_id, entries).0, feed_id, entries) == (
            ingest_spec(keys, feed_id, entries).0,
            0int,
        ),
{
    lemma_ingest_contains(keys, feed_id, entries);
    lemma_ingest_noop(ingest_spec(keys, feed_id, entries).0, feed_id, entries);
}

/// Law: refreshing an unchanged feed a second time reports zero new
/// articles, while its fetch is still recorded.
pub proof fn lemma_refresh_twice_no_new(st: StoreModel, feed_id: i64, f: FeedModel)
    ensures
        refresh_spec(refresh_spec(st, feed_id, Ok(f)).0, feed_id, Ok(f)).1.new_articles == 0,
        refresh_spec(refresh_spec(st, feed_id, Ok(f)).0, feed_id, Ok(f)).0.marks == st.marks.push(
            feed_id,
        ).push(feed_id),
{
    lemma_ingest_idempotent(st.keys, feed_id, f.entries);
}

/// Law: a batch refresh returns one result per feed, in input order; a feed
/// whose fetch or parse failed contributes zero new articles and its
/// recorded error, and the remaining feeds are still refreshed.
pub proof fn lemma_refresh_all_isolation(st: StoreModel, inputs: Seq<RefreshInputModel>)
    ensures
        refresh_all_spec(st, inputs).1.len() == inputs.len(),
        forall|k: int|
            0 <= k < inputs.len() ==> (#[trigger] refresh_all_spec(st, inputs).1[k]).feed_id
                == inputs[k].feed_id,
        forall|k: int|
            0 <= k < inputs.len() && inputs[k].parsed is Err ==> (#[trigger] refresh_all_spec(
                st,
                inputs,
            ).1[k]).new_articles == 0 && refresh_all_spec(st, inputs).1[k].error == Some(
                error_message(inputs[k].parsed->Err_0),
            ),
    decreases inputs.len(),
{
    if inputs.len() > 0 {
        let first = refresh_spec(st, inputs[0].feed_id, inputs[0].parsed);
        lemma_refresh_all_isolation(first.0, inputs.drop_first());
        assert forall|k: int| 0 <= k < inputs.len() implies (#[trigger] refresh_all_spec(
            st,
            inputs,
        ).1[k]).feed_id == inputs[k].feed_id by {
            if k > 0 {
                assert(inputs.drop_first()[k - 1] == inputs[k]);
                assert(refresh_all_spec(st, inputs).1[k] == refresh_all_spec(
                    first.0,
                    inputs.drop_first(),
                ).1[k - 1]);
            }
        }
        assert forall|k: int|
            0 <= k < inputs.len() && inputs[k].parsed is Err implies (#[trigger] refresh_all_spec(
            st,
            inputs,
        ).1[k]).new_articles == 0 && refresh_all_spec(st, inputs).1[k].error == Some(
            error_message(inputs[k].parsed->Err_0),
        ) by {
            if k > 0 {
                assert(inputs.drop_first()[k - 1] == inputs[k]);
                assert(refresh_all_spec(st, inputs).1[k] == refresh_all_spec(
                    first.0,
                    inputs.drop_first(),
                ).1[k - 1]);
            }
        }
    }
}

} // verus!
