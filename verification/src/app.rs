//! The application state: the pages and layouts, the per-kind storage keying
//! scheme, the session store the pages are saved into and loaded from, and
//! the in-memory aggregate that the frame loop mutates.

use vstd::prelude::*;

use circular_queue::CircularQueue;

use crate::channel::try_recv_log;
use crate::logger::{console_line, spec_console_line, Severity, Transmitted};
use crate::ring::{rb_capacity, rb_contents, rb_push, rb_to_vec, rb_with_capacity, ring_push};

verus! {

/// The kind of a page: the discriminant of [`PageData`], used as a storage
/// key discriminant and as UI selection state, and carrying no payload.
#[derive(Clone, Copy, PartialEq, Eq, Structural, Debug)]
pub enum Page {
    Home,
    Example,
}

/// The kind of a layout: the discriminant of [`LayoutData`].
#[derive(Clone, Copy, PartialEq, Eq, Structural, Debug)]
pub enum Layout {
    Desktop,
    Mobile,
}

/// The bit pattern of the 32-bit float that the example page's slider starts
/// from. The numeric meaning of the slider belongs to the UI layer; the
/// verified state carries the value as its raw bits.
pub const EXAMPLE_VALUE_BITS: u32 = 0x40490FDA;

/// The data of the example page. `label` is persisted; `value_bits` is
/// transient and comes back as the default whenever the page is loaded.
#[derive(Debug)]
pub struct Example {
    /// The text the page's edit box holds.
    pub label: String,
    /// The slider value, as the bit pattern of a 32-bit float.
    pub value_bits: u32,
}

/// The mathematical value of an [`Example`] payload.
pub struct ExampleV {
    pub label: Seq<char>,
    pub value_bits: u32,
}

impl View for Example {
    type V = ExampleV;

    open spec fn view(&self) -> ExampleV {
        ExampleV { label: self.label@, value_bits: self.value_bits }
    }
}

impl Clone for Example {
    fn clone(&self) -> (r: Self)
        ensures
            r == *self,
    {
        Example { label: self.label.clone(), value_bits: self.value_bits }
    }
}

impl Default for Example {
    /// The payload the example page starts from when nothing is stored.
    fn default() -> (r: Example)
        ensures
            r@ == spec_default_example(),
    {
        Example { label: String::from_str("Hello world!"), value_bits: EXAMPLE_VALUE_BITS }
    }
}

/// The structural default of the example payload.
pub open spec fn spec_default_example() -> ExampleV {
    ExampleV { label: "Hello world!"@, value_bits: EXAMPLE_VALUE_BITS }
}

/// The data of the currently displayed page, tagged by its kind.
#[derive(Debug)]
pub enum PageData {
    Home,
    Example(Example),
}

/// The mathematical value of a [`PageData`].
pub enum PageDataV {
    Home,
    Example(ExampleV),
}

impl View for PageData {
    type V = PageDataV;

    open spec fn view(&self) -> PageDataV {
        match self {
            PageData::Home => PageDataV::Home,
            PageData::Example(e) => PageDataV::Example(e@),
        }
    }
}

impl Clone for PageData {
    fn clone(&self) -> (r: Self)
        ensures
            r == *self,
    {
        match self {
            PageData::Home => PageData::Home,
            PageData::Example(e) => PageData::Example(e.clone()),
        }
    }
}

impl PageDataV {
    /// The kind this payload belongs to.
    pub open spec fn kind(self) -> Page {
        match self {
            PageDataV::Home => Page::Home,
            PageDataV::Example(_) => Page::Example,
        }
    }
}

impl PageData {
    /// The kind of this payload: the discriminant, derived from the active
    /// variant and never stored beside it.
    pub fn kind(&self) -> (k: Page)
        ensures
            k == self@.kind(),
    {
        match self {
            PageData::Home => Page::Home,
            PageData::Example(_) => Page::Example,
        }
    }
}

impl Default for PageData {
    fn default() -> (r: Self)
        ensures
            r@ == PageDataV::Home,
    {
        PageData::Home
    }
}

/// The structural default payload of each page kind.
pub open spec fn spec_default_data(k: Page) -> PageDataV {
    match k {
        Page::Home => PageDataV::Home,
        Page::Example => PageDataV::Example(spec_default_example()),
    }
}

impl Page {
    /// Every page kind, in display order.
    pub fn all() -> (v: Vec<Page>)
        ensures
            v@ == seq![Page::Home, Page::Example],
    {
        let mut v: Vec<Page> = Vec::new();
        v.push(Page::Home);
        v.push(Page::Example);
        proof {
            assert(v@ =~= seq![Page::Home, Page::Example]);
        }
        v
    }

    /// The display name of this page kind, as it appears in its storage key.
    pub fn name(self) -> (r: &'static str)
        ensures
            r@ == spec_page_name(self),
    {
        match self {
            Page::Home => "Home",
            Page::Example => "Example",
        }
    }

    /// The default payload of this page kind.
    pub fn default_data(self) -> (r: PageData)
        ensures
            r@ == spec_default_data(self),
    {
        match self {
            Page::Home => PageData::Home,
            Page::Example => PageData::Example(Example::default()),
        }
    }
}

/// The display name of a page kind.
pub open spec fn spec_page_name(k: Page) -> Seq<char> {
    match k {
        Page::Home => "Home"@,
        Page::Example => "Example"@,
    }
}

/// The namespace prefix of every storage key this application writes.
pub open spec fn spec_key_prefix() -> Seq<char> {
    "tye_home"@
}

/// The storage key of a page kind: the namespace, a dash, and the kind's
/// name.
pub open spec fn spec_storage_key(k: Page) -> Seq<char> {
    spec_key_prefix() + "-"@ + spec_page_name(k)
}

/// The storage key under which the whole application state is persisted on
/// shutdown.
pub open spec fn spec_app_storage_key() -> Seq<char> {
    spec_key_prefix()
}

/// The storage key under which an initial layout may be stored.
pub open spec fn spec_layout_storage_key() -> Seq<char> {
    spec_key_prefix() + "-"@ + "Layout"@
}

/// Builds the storage key of a page kind, `"{namespace}-{kind}"`.
pub fn storage_key(k: Page) -> (r: String)
    ensures
        r@ == spec_storage_key(k),
{
    let mut key = String::from_str("tye_home");
    key.append("-");
    key.append(k.name());
    key
}

/// The key of the whole-state record.
pub fn app_storage_key() -> (r: String)
    ensures
        r@ == spec_app_storage_key(),
{
    String::from_str("tye_home")
}

/// The key of the stored initial layout.
pub fn layout_storage_key() -> (r: String)
    ensures
        r@ == spec_layout_storage_key(),
{
    let mut key = String::from_str("tye_home");
    key.append("-");
    key.append("Layout");
    key
}

/// Law: the storage key is a function of the kind alone, and two kinds share
/// a key only if they are the same kind.
pub proof fn lemma_storage_key_injective(k1: Page, k2: Page)
    ensures
        (k1 == k2) <==> (spec_storage_key(k1) == spec_storage_key(k2)),
{
    reveal_strlit("Home");
    reveal_strlit("Example");
    reveal_strlit("tye_home");
    reveal_strlit("-");
    assert(spec_storage_key(Page::Home).len() == 13);
    assert(spec_storage_key(Page::Example).len() == 16);
}

/// Law: no page key collides with the whole-state key or with the layout
/// key, so saving a page disturbs neither.
pub proof fn lemma_page_keys_avoid_reserved(k: Page)
    ensures
        spec_storage_key(k) != spec_app_storage_key(),
        spec_storage_key(k) != spec_layout_storage_key(),
{
    reveal_strlit("Home");
    reveal_strlit("Example");
    reveal_strlit("Layout");
    reveal_strlit("tye_home");
    reveal_strlit("-");
    assert(spec_app_storage_key().len() == 8);
    assert(spec_layout_storage_key().len() == 15);
    assert(spec_storage_key(Page::Home).len() == 13);
    assert(spec_storage_key(Page::Example).len() == 16);
}

/// The data of the active layout, tagged by its kind. `tabs_open` is
/// transient UI state.
#[derive(Clone, Copy, PartialEq, Eq, Structural, Debug)]
pub enum LayoutData {
    Desktop {},
    Mobile { tabs_open: bool },
}

impl LayoutData {
    /// The kind this layout data belongs to.
    pub open spec fn spec_kind(self) -> Layout {
        match self {
            LayoutData::Desktop {  } => Layout::Desktop,
            LayoutData::Mobile { .. } => Layout::Mobile,
        }
    }

    /// The kind of this layout data: the discriminant, derived from the
    /// active variant.
    pub fn kind(&self) -> (k: Layout)
        ensures
            k == self.spec_kind(),
    {
        match self {
            LayoutData::Desktop {  } => Layout::Desktop,
            LayoutData::Mobile { .. } => Layout::Mobile,
        }
    }

    /// The layout a host of the given form factor starts with.
    pub fn for_mobile(is_mobile: bool) -> (r: LayoutData)
        ensures
            r == (if is_mobile {
                LayoutData::Mobile { tabs_open: false }
            } else {
                LayoutData::Desktop {  }
            }),
    {
        if is_mobile {
            LayoutData::Mobile { tabs_open: false }
        } else {
            LayoutData::Desktop {  }
        }
    }
}

impl Default for LayoutData {
    fn default() -> (r: Self)
        ensures
            r == (LayoutData::Desktop {  }),
    {
        LayoutData::Desktop {  }
    }
}

/// The session view of the host's key/value storage, one slot per page
/// kind. Each page's payload is stored independently under its own
/// kind-derived key — [`lemma_storage_key_injective`] is what lets a slot
/// per kind stand for a record per key — so that switching away from a page
/// and back preserves that page's last edits, and so that one kind can be
/// reset without disturbing the others.
pub struct PageStore {
    /// What is stored under the home page's key.
    pub home: Option<PageData>,
    /// What is stored under the example page's key.
    pub example: Option<PageData>,
}

impl View for PageStore {
    type V = Map<Page, PageDataV>;

    open spec fn view(&self) -> Map<Page, PageDataV> {
        let m = Map::<Page, PageDataV>::empty();
        let m = if self.home is Some {
            m.insert(Page::Home, self.home->0@)
        } else {
            m
        };
        if self.example is Some {
            m.insert(Page::Example, self.example->0@)
        } else {
            m
        }
    }
}

/// A store is well formed when every stored payload lies under its own
/// kind's key.
pub open spec fn spec_store_wf(m: Map<Page, PageDataV>) -> bool {
    forall|k: Page| m.contains_key(k) ==> (#[trigger] m[k]).kind() == k
}

/// What a load observes: the stored payload of the kind, or the kind's
/// structural default where nothing is stored.
pub open spec fn spec_load(m: Map<Page, PageDataV>, k: Page) -> PageDataV {
    if m.contains_key(k) {
        m[k]
    } else {
        spec_default_data(k)
    }
}

/// The part of a payload that persistence keeps: the example page's label
/// survives, while its transient slider value comes back as the default.
pub open spec fn spec_persisted(d: PageDataV) -> PageDataV {
    match d {
        PageDataV::Home => PageDataV::Home,
        PageDataV::Example(e) => PageDataV::Example(
            ExampleV { label: e.label, value_bits: EXAMPLE_VALUE_BITS },
        ),
    }
}

impl PageStore {
    /// A store with nothing in it.
    pub fn new() -> (r: PageStore)
        ensures
            r@ == Map::<Page, PageDataV>::empty(),
    {
        let r = PageStore { home: None, example: None };
        proof {
            assert(r@ =~= Map::<Page, PageDataV>::empty());
        }
        r
    }
}

/// Law: a load from a well-formed store hands back a payload of the
/// requested kind, stored or not.
pub proof fn lemma_load_kind(m: Map<Page, PageDataV>, k: Page)
    requires
        spec_store_wf(m),
    ensures
        spec_load(m, k).kind() == k,
{
}

impl PageData {
    /// Saves this payload into the store under its own kind-derived key,
    /// overwriting what that key held and touching no other key. Only the
    /// persisted part of the payload is written: the transient slider value
    /// is not kept.
    pub fn save(&self, store: &mut PageStore)
        ensures
            final(store)@ == old(store)@.insert(self@.kind(), spec_persisted(self@)),
            spec_store_wf(old(store)@) ==> spec_store_wf(final(store)@),
    {
        match self {
            PageData::Home => {
                store.home = Some(PageData::Home);
            },
            PageData::Example(e) => {
                store.example = Some(
                    PageData::Example(
                        Example { label: e.label.clone(), value_bits: EXAMPLE_VALUE_BITS },
                    ),
                );
            },
        }
        proof {
            assert(store@ =~= old(store)@.insert(self@.kind(), spec_persisted(self@)));
        }
    }
}

impl Page {
    /// Loads this kind's payload from the store: the stored payload if the
    /// kind's key holds one, and the kind's structural default otherwise.
    pub fn load(self, store: &PageStore) -> (r: PageData)
        ensures
            r@ == spec_load(store@, self),
    {
        match self {
            Page::Home => {
                match &store.home {
                    Some(d) => d.clone(),
                    None => self.default_data(),
                }
            },
            Page::Example => {
                match &store.example {
                    Some(d) => d.clone(),
                    None => self.default_data(),
                }
            },
        }
    }
}

/// What one page switch does: the active payload is saved under its own key
/// first, and only then is the target kind's payload loaded, so that edits
/// to the page being left are never discarded.
pub open spec fn spec_switch(active: PageDataV, m: Map<Page, PageDataV>, target: Page) -> (
    PageDataV,
    Map<Page, PageDataV>,
) {
    let saved = m.insert(active.kind(), spec_persisted(active));
    (spec_load(saved, target), saved)
}

/// Law: saving before loading means no edit is lost across a switch. A page
/// holding payload `p`, switched away from and back to, holds the persisted
/// part of `p` again — all of `p` but its transient slider value, and all of
/// `p` whenever that value was the default — whatever was stored before and
/// whichever page was visited in between.
pub proof fn lemma_switch_save_before_load(
    p: PageDataV,
    m: Map<Page, PageDataV>,
    a: Page,
    b: Page,
)
    requires
        p.kind() == a,
        spec_store_wf(m),
    ensures
        ({
            let (away, saved_a) = spec_switch(p, m, b);
            let (back, _) = spec_switch(away, saved_a, a);
            back == spec_persisted(p)
        }),
{
    let saved_a = m.insert(a, spec_persisted(p));
    let away = spec_load(saved_a, b);
    assert(spec_persisted(p).kind() == a);
    assert(spec_store_wf(saved_a));
    lemma_load_kind(saved_a, b);
}

/// The number of recent log lines the application keeps.
pub const LOG_CAPACITY: usize = 16;

/// Why the application could not be constructed.
#[derive(Clone, Copy, PartialEq, Eq, Structural, Debug)]
pub enum InitError {
    /// No storage handle existed at startup.
    StorageError,
}

impl InitError {
    /// A description of this error for display.
    pub fn message(&self) -> (r: String)
        ensures
            r@ == "Unable to access storage."@,
    {
        String::from_str("Unable to access storage.")
    }
}

/// The current in-memory state of the application.
pub struct MyApp {
    /// The data of the currently rendered page.
    pub page_data: PageData,
    /// Whether the debug window is open.
    pub debug_window: bool,
    /// Which layout to render.
    pub layout: LayoutData,
    /// A buffer of the most recent log lines, oldest first.
    pub logs: CircularQueue<String>,
    /// The receiving end of the log channel, drained once per frame.
    pub log_receiver: Option<std::sync::mpsc::Receiver<Transmitted>>,
}

impl MyApp {
    /// The log buffer always has the fixed capacity and never holds more
    /// lines than it.
    pub open spec fn wf(self) -> bool {
        &&& rb_capacity(self.logs) == LOG_CAPACITY as nat
        &&& rb_contents(self.logs).len() <= LOG_CAPACITY as nat
    }
}

impl Default for MyApp {
    fn default() -> (app: Self)
        ensures
            app.wf(),
            app.page_data@ == PageDataV::Home,
            app.debug_window == false,
            app.layout == (LayoutData::Desktop {  }),
            rb_contents(app.logs) == Seq::<Seq<char>>::empty(),
            app.log_receiver is None,
    {
        MyApp {
            page_data: PageData::Home,
            debug_window: false,
            layout: LayoutData::Desktop {  },
            logs: rb_with_capacity(LOG_CAPACITY),
            log_receiver: None,
        }
    }
}

impl MyApp {
    /// The kind that the current page data represents.
    pub fn page(&self) -> (k: Page)
        ensures
            k == self.page_data@.kind(),
    {
        self.page_data.kind()
    }

    /// The kind that the current layout data represents.
    pub fn layout(&self) -> (k: Layout)
        ensures
            k == self.layout.spec_kind(),
    {
        self.layout.kind()
    }

    /// Saves the current page's data under its own key, then loads the data
    /// for the given page and makes it the active payload. The save comes
    /// first: a switch never discards the edits of the page being left.
    pub fn switch_page(&mut self, page: Page, store: &mut PageStore)
        ensures
            (final(self).page_data@, final(store)@) == spec_switch(
                old(self).page_data@,
                old(store)@,
                page,
            ),
            spec_store_wf(old(store)@) ==> spec_store_wf(final(store)@),
            final(self).debug_window == old(self).debug_window,
            final(self).layout == old(self).layout,
            final(self).logs == old(self).logs,
            final(self).log_receiver == old(self).log_receiver,
            old(self).wf() ==> final(self).wf(),
    {
        self.page_data.save(store);
        self.page_data = page.load(store);
    }

    /// Overwrites every kind's stored data with that kind's structural
    /// default, then reloads the active kind so the state reflects the
    /// reset at once.
    pub fn reset_all(&mut self, store: &mut PageStore)
        ensures
            forall|k: Page| spec_load(final(store)@, k) == spec_default_data(k),
            spec_store_wf(final(store)@),
            final(self).page_data@ == spec_default_data(old(self).page_data@.kind()),
            final(self).debug_window == old(self).debug_window,
            final(self).layout == old(self).layout,
            final(self).logs == old(self).logs,
            final(self).log_receiver == old(self).log_receiver,
            old(self).wf() ==> final(self).wf(),
    {
        let kinds = Page::all();
        let mut i: usize = 0;
        while i < kinds.len()
            invariant
                kinds@ == seq![Page::Home, Page::Example],
                i <= kinds@.len(),
                forall|j: int|
                    0 <= j < i ==> spec_load(store@, kinds@[j]) == spec_default_data(kinds@[j]),
                forall|j: int|
                    0 <= j < i ==> store@.contains_key(kinds@[j]) && store@[kinds@[j]]
                        == spec_default_data(kinds@[j]),
            decreases kinds@.len() - i,
        {
            let kind = kinds[i];
            let defaults = kind.default_data();
            proof {
                assert(defaults@.kind() == kind);
            }
            defaults.save(store);
            i = i + 1;
        }
        proof {
            assert(store@.contains_key(kinds@[0]) && store@[kinds@[0]] == spec_default_data(
                kinds@[0],
            ));
            assert(store@.contains_key(kinds@[1]) && store@[kinds@[1]] == spec_default_data(
                kinds@[1],
            ));
            assert forall|k: Page| store@.contains_key(k) && #[trigger] store@[k]
                == spec_default_data(k) by {
                match k {
                    Page::Home => {
                        assert(store@[kinds@[0]] == spec_default_data(kinds@[0]));
                    },
                    Page::Example => {
                        assert(store@[kinds@[1]] == spec_default_data(kinds@[1]));
                    },
                }
            }
        }
        self.page_data = self.page().load(store);
    }

    /// Replaces the active layout by the other kind's fresh data.
    pub fn toggle_layout(&mut self)
        ensures
            final(self).layout == (if old(self).layout.spec_kind() == Layout::Mobile {
                LayoutData::Desktop {  }
            } else {
                LayoutData::Mobile { tabs_open: false }
            }),
            final(self).page_data == old(self).page_data,
            final(self).debug_window == old(self).debug_window,
            final(self).logs == old(self).logs,
            final(self).log_receiver == old(self).log_receiver,
            old(self).wf() ==> final(self).wf(),
    {
        self.layout = if self.layout.kind() == Layout::Mobile {
            LayoutData::Desktop {  }
        } else {
            LayoutData::Mobile { tabs_open: false }
        };
    }

    /// Resets the layout to the host form factor's default.
    pub fn reset_layout(&mut self, is_mobile: bool)
        ensures
            final(self).layout == (if is_mobile {
                LayoutData::Mobile { tabs_open: false }
            } else {
                LayoutData::Desktop {  }
            }),
            final(self).page_data == old(self).page_data,
            final(self).debug_window == old(self).debug_window,
            final(self).logs == old(self).logs,
            final(self).log_receiver == old(self).log_receiver,
            old(self).wf() ==> final(self).wf(),
    {
        self.layout = LayoutData::for_mobile(is_mobile);
    }

    /// Opens the debug window if it is closed, and closes it if it is open.
    pub fn toggle_debug_window(&mut self)
        ensures
            final(self).debug_window == !old(self).debug_window,
            final(self).page_data == old(self).page_data,
            final(self).layout == old(self).layout,
            final(self).logs == old(self).logs,
            final(self).log_receiver == old(self).log_receiver,
            old(self).wf() ==> final(self).wf(),
    {
        self.debug_window = !self.debug_window;
    }

    /// Constructs the application state once at startup. Without a storage
    /// handle, construction fails. With one, a persisted whole state is
    /// taken as it was left; otherwise the state starts from the defaults,
    /// with the layout taken from its stored record if present and from the
    /// host form factor if not. The receiving end of the log channel is
    /// attached either way.
    pub fn new(
        has_storage: bool,
        stored: Option<MyApp>,
        stored_layout: Option<LayoutData>,
        is_mobile: bool,
        log_receiver: Option<std::sync::mpsc::Receiver<Transmitted>>,
    ) -> (r: Result<MyApp, InitError>)
        requires
            stored is Some ==> stored->0.wf(),
        ensures
            r is Err <==> !has_storage,
            r is Err ==> r->Err_0 == InitError::StorageError,
            r is Ok ==> ({
                let app = r->Ok_0;
                &&& app.wf()
                &&& app.log_receiver == log_receiver
                &&& stored is Some ==> {
                    &&& app.page_data == stored->0.page_data
                    &&& app.debug_window == stored->0.debug_window
                    &&& app.layout == stored->0.layout
                    &&& app.logs == stored->0.logs
                }
                &&& stored is None ==> {
                    &&& app.page_data@ == PageDataV::Home
                    &&& app.debug_window == false
                    &&& rb_contents(app.logs) == Seq::<Seq<char>>::empty()
                    &&& app.layout == (match stored_layout {
                        Some(layout) => layout,
                        None => if is_mobile {
                            LayoutData::Mobile { tabs_open: false }
                        } else {
                            LayoutData::Desktop {  }
                        },
                    })
                }
            }),
    {
        if !has_storage {
            return Err(InitError::StorageError);
        }
        let mut app = match stored {
            Some(app) => app,
            None => {
                let mut app = MyApp::default();
                app.layout = match stored_layout {
                    Some(layout) => layout,
                    None => LayoutData::for_mobile(is_mobile),
                };
                app
            },
        };
        app.log_receiver = log_receiver;
        Ok(app)
    }

    /// Appends one received record, formatted `"{level}: {message}\n"`, to
    /// the ring buffer of recent lines; past the capacity the oldest line is
    /// evicted. No record means nothing changes this frame.
    pub fn apply_log(&mut self, received: Option<Transmitted>)
        ensures
            received is Some ==> ({
                let (level, text) = received->0;
                rb_contents(final(self).logs) == ring_push(
                    rb_contents(old(self).logs),
                    rb_capacity(old(self).logs),
                    spec_console_line(level, text@),
                )
            }),
            received is None ==> final(self).logs == old(self).logs,
            rb_capacity(final(self).logs) == rb_capacity(old(self).logs),
            final(self).page_data == old(self).page_data,
            final(self).debug_window == old(self).debug_window,
            final(self).layout == old(self).layout,
            final(self).log_receiver == old(self).log_receiver,
            old(self).wf() ==> final(self).wf(),
    {
        match received {
            Some((level, text)) => {
                let line = console_line(level, text.as_str());
                let _ = rb_push(&mut self.logs, line);
            },
            None => {},
        }
    }

    /// One frame's log drain: at most one pending record is taken from the
    /// channel, never blocking, and appended to the recent lines. A missing
    /// receiver, an empty channel and a disconnected one all leave the
    /// buffer as it was.
    pub fn drain_one_log(&mut self)
        ensures
            rb_capacity(final(self).logs) == rb_capacity(old(self).logs),
            final(self).logs == old(self).logs || exists|level: Severity, text: Seq<char>|
                rb_contents(final(self).logs) == ring_push(
                    rb_contents(old(self).logs),
                    rb_capacity(old(self).logs),
                    spec_console_line(level, text),
                ),
            final(self).page_data == old(self).page_data,
            final(self).debug_window == old(self).debug_window,
            final(self).layout == old(self).layout,
            final(self).log_receiver == old(self).log_receiver,
            old(self).wf() ==> final(self).wf(),
    {
        let received = match &self.log_receiver {
            Some(receiver) => try_recv_log(receiver),
            None => None,
        };
        if received.is_some() {
            let ghost pair = received->0;
            let ghost level = pair.0;
            let ghost text = pair.1@;
            self.apply_log(received);
            proof {
                assert(rb_contents(self.logs) == ring_push(
                    rb_contents(old(self).logs),
                    rb_capacity(old(self).logs),
                    spec_console_line(level, text),
                ));
            }
        } else {
            self.apply_log(received);
        }
    }

    /// The recent log lines, oldest first.
    pub fn recent_logs(&self) -> (v: Vec<String>)
        ensures
            v.deep_view() == rb_contents(self.logs),
    {
        rb_to_vec(&self.logs)
    }
}

} // verus!
