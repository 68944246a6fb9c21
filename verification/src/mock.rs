//! An in-process stand-in for an SAP GUI session, for driving flows in tests.
//!
//! The session keeps its components by id, the current transaction, and a
//! log of every observable interaction in call order. A component handed out
//! by [`MockSapSession::find_by_id`] names its entry in the session; its
//! operations act on that entry and append to the session's log.
use crate::assoc::{
    assoc_get, assoc_insert, entry_keys, find_key, has_key, keys_of, lemma_first_unique,
    lemma_get_insert_other, lemma_get_insert_same, lemma_insert_keys,
};
use crate::assoc::StrMap;
use crate::text::{bool_text, bool_to_string, chars_of, copy_string, owned, string_of, str_eq};
use vstd::prelude::*;

verus! {

/// One observable interaction with the mock.
#[allow(inconsistent_fields)]
#[derive(Debug, Clone, PartialEq)]
pub enum MockEvent {
    FindById(String),
    SetText { id: String, value: String },
    Press(String),
    Select(String),
    SetSelected { id: String, value: bool },
    SetFocus(String),
    StartTransaction(String),
    EndTransaction,
}

/// The content of a [`MockEvent`].
#[allow(inconsistent_fields)]
pub enum EventView {
    FindById(Seq<char>),
    SetText { id: Seq<char>, value: Seq<char> },
    Press(Seq<char>),
    Select(Seq<char>),
    SetSelected { id: Seq<char>, value: bool },
    SetFocus(Seq<char>),
    StartTransaction(Seq<char>),
    EndTransaction,
}

impl View for MockEvent {
    type V = EventView;

    open spec fn view(&self) -> EventView {
        match self {
            MockEvent::FindById(id) => EventView::FindById(id@),
            MockEvent::SetText { id, value } => EventView::SetText { id: id@, value: value@ },
            MockEvent::Press(id) => EventView::Press(id@),
            MockEvent::Select(id) => EventView::Select(id@),
            MockEvent::SetSelected { id, value } => EventView::SetSelected { id: id@, value: *value },
            MockEvent::SetFocus(id) => EventView::SetFocus(id@),
            MockEvent::StartTransaction(t) => EventView::StartTransaction(t@),
            MockEvent::EndTransaction => EventView::EndTransaction,
        }
    }
}

pub open spec fn event_views(s: Seq<MockEvent>) -> Seq<EventView> {
    Seq::new(s.len(), |i: int| s[i]@)
}

/// A mock component: what a test can read back from a control.
#[derive(Debug)]
pub struct MockComponent {
    pub id: String,
    pub name: String,
    pub r_type: String,
    pub text: String,
    pub properties: StrMap,
    pub children: Vec<MockComponent>,
}

/// The content of a [`MockComponent`], leaving its children aside.
pub struct ComponentView {
    pub id: Seq<char>,
    pub name: Seq<char>,
    pub r_type: Seq<char>,
    pub text: Seq<char>,
    pub properties: Seq<(Seq<char>, Seq<char>)>,
}

impl View for MockComponent {
    type V = ComponentView;

    open spec fn view(&self) -> ComponentView {
        ComponentView {
            id: self.id@,
            name: self.name@,
            r_type: self.r_type@,
            text: self.text@,
            properties: self.properties@,
        }
    }
}

impl MockComponent {
    /// A component with empty text, no properties and no children.
    pub fn new(id: &str, name: &str, r_type: &str) -> (r: MockComponent)
        ensures
            r@ == (ComponentView {
                id: id@,
                name: name@,
                r_type: r_type@,
                text: Seq::empty(),
                properties: Seq::empty(),
            }),
            r.children@.len() == 0,
    {
        let text = String::new();
        proof {
            assert(text@ =~= Seq::<char>::empty());
        }
        MockComponent {
            id: owned(id),
            name: owned(name),
            r_type: owned(r_type),
            text,
            properties: StrMap::new(),
            children: Vec::new(),
        }
    }

    /// Appends a child.
    pub fn add_child(&mut self, child: MockComponent)
        ensures
            final(self)@ == old(self)@,
            final(self).children@ == old(self).children@.push(child),
    {
        self.children.push(child);
    }
}

/// The transaction of a session at the login screen.
pub open spec fn login_transaction() -> Seq<char> {
    "S000"@
}

/// The content of a [`MockSapSession`].
pub struct SessionView {
    pub name: Seq<char>,
    pub components: Seq<(Seq<char>, ComponentView)>,
    pub transaction: Seq<char>,
    pub events: Seq<EventView>,
}

/// A mock SAP session.
pub struct MockSapSession {
    name: String,
    components: Vec<(String, MockComponent)>,
    current_transaction: String,
    events: Vec<MockEvent>,
}

impl View for MockSapSession {
    type V = SessionView;

    closed spec fn view(&self) -> SessionView {
        SessionView {
            name: self.name@,
            components: Seq::new(
                self.components@.len(),
                |i: int| (self.components@[i].0@, self.components@[i].1@),
            ),
            transaction: self.current_transaction@,
            events: event_views(self.events@),
        }
    }
}

// ---------------------------------------------------------------------------
// Specification of the operations
// ---------------------------------------------------------------------------

/// Whether the session has a component under `key`.
pub open spec fn has_component(s: SessionView, key: Seq<char>) -> bool {
    has_key(keys_of(s.components), key)
}

/// The component under `key`.
pub open spec fn component(s: SessionView, key: Seq<char>) -> ComponentView {
    assoc_get(s.components, key)->Some_0
}

/// `s` with one more event.
pub open spec fn logged(s: SessionView, e: EventView) -> SessionView {
    SessionView { events: s.events.push(e), ..s }
}

/// `s` with the component under `key` replaced.
pub open spec fn with_component(s: SessionView, key: Seq<char>, c: ComponentView) -> SessionView {
    SessionView { components: assoc_insert(s.components, key, c), ..s }
}

/// What `set_text` leaves: the event, then the new text.
pub open spec fn after_set_text(s: SessionView, key: Seq<char>, v: Seq<char>) -> SessionView {
    let c = component(s, key);
    with_component(
        logged(s, EventView::SetText { id: c.id, value: v }),
        key,
        ComponentView { text: v, ..c },
    )
}

/// Whether the component's `selected` property reads `true`.
pub open spec fn is_selected(c: ComponentView) -> bool {
    assoc_get(c.properties, "selected"@) == Some("true"@)
}

/// What `set_selected` leaves: the event, then the `selected` property.
pub open spec fn after_set_selected(s: SessionView, key: Seq<char>, b: bool) -> SessionView {
    let c = component(s, key);
    with_component(
        logged(s, EventView::SetSelected { id: c.id, value: b }),
        key,
        ComponentView { properties: assoc_insert(c.properties, "selected"@, bool_text(b)), ..c },
    )
}

/// The text after the last `/` of an SAP id, or the whole id.
pub open spec fn leaf(id: Seq<char>) -> Seq<char>
    decreases id.len(),
{
    if id.len() == 0 {
        id
    } else if id.last() == '/' {
        Seq::empty()
    } else {
        leaf(id.drop_last()).push(id.last())
    }
}

/// A builder's component: `id`, its leaf name, a type, and a text.
pub open spec fn built(id: Seq<char>, r_type: Seq<char>, text: Seq<char>) -> ComponentView {
    ComponentView { id, name: leaf(id), r_type, text, properties: Seq::empty() }
}

// ---------------------------------------------------------------------------
// Implementation
// ---------------------------------------------------------------------------

/// The last `/`-segment of an SAP id (`wnd[0]/usr/txtField` → `txtField`).
pub fn leaf_name(id: &str) -> (r: String)
    ensures
        r@ == leaf(id@),
{
    let v = chars_of(id);
    let mut start: usize = v.len();
    let mut out: Vec<char> = Vec::new();
    assert(v@.take(v@.len() as int) =~= v@);
    assert(v@.subrange(v@.len() as int, v@.len() as int) =~= Seq::<char>::empty());
    // Walk back to the last `/`.
    while start > 0 && v[start - 1] != '/'
        invariant
            v@ == id@,
            start <= v@.len(),
            leaf(id@) == leaf(v@.take(start as int)) + v@.subrange(start as int, v@.len() as int),
        decreases start,
    {
        proof {
            let t = v@.take(start as int);
            assert(t.drop_last() =~= v@.take(start - 1));
            assert(t.last() == v@[start - 1]);
            assert(v@.subrange(start - 1, v@.len() as int) =~= seq![v@[start - 1]]
                + v@.subrange(start as int, v@.len() as int));
        }
        start = start - 1;
    }
    proof {
        if start > 0 {
            assert(v@.take(start as int).last() == '/');
        } else {
            assert(v@.take(0) =~= Seq::<char>::empty());
        }
    }
    let mut i: usize = start;
    while i < v.len()
        invariant
            v@ == id@,
            start <= i <= v@.len(),
            out@ == v@.subrange(start as int, i as int),
        decreases v@.len() - i,
    {
        out.push(v[i]);
        proof {
            assert(out@ =~= v@.subrange(start as int, i + 1));
        }
        i = i + 1;
    }
    assert(leaf(id@) =~= out@);
    string_of(out.as_slice())
}

fn copy_event(e: &MockEvent) -> (r: MockEvent)
    ensures
        r@ == e@,
{
    match e {
        MockEvent::FindById(id) => MockEvent::FindById(copy_string(id)),
        MockEvent::SetText { id, value } => MockEvent::SetText {
            id: copy_string(id),
            value: copy_string(value),
        },
        MockEvent::Press(id) => MockEvent::Press(copy_string(id)),
        MockEvent::Select(id) => MockEvent::Select(copy_string(id)),
        MockEvent::SetSelected { id, value } => MockEvent::SetSelected {
            id: copy_string(id),
            value: *value,
        },
        MockEvent::SetFocus(id) => MockEvent::SetFocus(copy_string(id)),
        MockEvent::StartTransaction(t) => MockEvent::StartTransaction(copy_string(t)),
        MockEvent::EndTransaction => MockEvent::EndTransaction,
    }
}

/// The session information of a mock session: its transaction when asked.
pub struct MockSapSessionInfo {
    transaction: String,
}

impl MockSapSessionInfo {
    pub fn new(transaction: String) -> (r: MockSapSessionInfo)
        ensures
            r.transaction_view() == transaction@,
    {
        MockSapSessionInfo { transaction }
    }

    pub closed spec fn transaction_view(&self) -> Seq<char> {
        self.transaction@
    }

    /// The transaction.
    pub fn transaction(&self) -> (r: Result<String, String>)
        ensures
            r matches Ok(t) && t@ == self.transaction_view(),
    {
        Ok(copy_string(&self.transaction))
    }
}

/// A component handed out by a session: the key of its entry there.
pub struct MockSapComponent {
    key: String,
}

impl MockSapComponent {
    /// The handle of the entry under `key`.
    pub fn new(key: &str) -> (r: MockSapComponent)
        ensures
            r.key_view() == key@,
    {
        MockSapComponent { key: owned(key) }
    }

    pub closed spec fn key_view(&self) -> Seq<char> {
        self.key@
    }

    /// A handle whose events go into the log of `session`: `component` is
    /// stored there under its own id (replacing what was there), and the
    /// handle refers to that entry.
    pub fn with_events(component: MockComponent, session: &mut MockSapSession) -> (r: MockSapComponent)
        ensures
            final(session)@ == with_component(old(session)@, component@.id, component@),
            r.key_view() == component@.id,
            has_component(final(session)@, r.key_view()),
            crate::mock::component(final(session)@, r.key_view()) == component@,
    {
        let id = copy_string(&component.id);
        let ghost c = component@;
        session.add_component(id.as_str(), component);
        proof {
            lemma_add_then_find(old(session)@, c.id, c);
        }
        MockSapComponent { key: id }
    }

    /// The id of the component.
    pub fn id(&self, session: &MockSapSession) -> (r: String)
        requires
            has_component(session@, self.key_view()),
        ensures
            r@ == component(session@, self.key_view()).id,
    {
        copy_string(&session.entry(self.key.as_str()).id)
    }

    /// The type of the component (`GuiTextField`, `GuiButton`, ...).
    pub fn r_type(&self, session: &MockSapSession) -> (r: Result<String, String>)
        requires
            has_component(session@, self.key_view()),
        ensures
            r matches Ok(t) && t@ == component(session@, self.key_view()).r_type,
    {
        Ok(copy_string(&session.entry(self.key.as_str()).r_type))
    }

    /// The name of the component.
    pub fn name(&self, session: &MockSapSession) -> (r: Result<String, String>)
        requires
            has_component(session@, self.key_view()),
        ensures
            r matches Ok(t) && t@ == component(session@, self.key_view()).name,
    {
        Ok(copy_string(&session.entry(self.key.as_str()).name))
    }

    /// The text of the component.
    pub fn get_text(&self, session: &MockSapSession) -> (r: Result<String, String>)
        requires
            has_component(session@, self.key_view()),
        ensures
            r matches Ok(t) && t@ == component(session@, self.key_view()).text,
    {
        Ok(copy_string(&session.entry(self.key.as_str()).text))
    }

    /// Records the event, then sets the text.
    pub fn set_text(&self, session: &mut MockSapSession, text: String) -> (r: Result<(), String>)
        requires
            has_component(old(session)@, self.key_view()),
        ensures
            r is Ok,
            final(session)@ == after_set_text(old(session)@, self.key_view(), text@),
    {
        session.set_component_text(self.key.as_str(), text);
        Ok(())
    }

    /// Records a focus event.
    pub fn set_focus(&self, session: &mut MockSapSession) -> (r: Result<(), String>)
        requires
            has_component(old(session)@, self.key_view()),
        ensures
            r is Ok,
            final(session)@ == logged(
                old(session)@,
                EventView::SetFocus(component(old(session)@, self.key_view()).id),
            ),
    {
        let id = self.id(session);
        session.record(MockEvent::SetFocus(id));
        Ok(())
    }

    /// Records a press event.
    pub fn press(&self, session: &mut MockSapSession) -> (r: Result<(), String>)
        requires
            has_component(old(session)@, self.key_view()),
        ensures
            r is Ok,
            final(session)@ == logged(
                old(session)@,
                EventView::Press(component(old(session)@, self.key_view()).id),
            ),
    {
        let id = self.id(session);
        session.record(MockEvent::Press(id));
        Ok(())
    }

    /// Records a select event.
    pub fn select(&self, session: &mut MockSapSession) -> (r: Result<(), String>)
        requires
            has_component(old(session)@, self.key_view()),
        ensures
            r is Ok,
            final(session)@ == logged(
                old(session)@,
                EventView::Select(component(old(session)@, self.key_view()).id),
            ),
    {
        let id = self.id(session);
        session.record(MockEvent::Select(id));
        Ok(())
    }

    /// Whether the `selected` property reads `true`; `false` when unset.
    pub fn selected(&self, session: &MockSapSession) -> (r: Result<bool, String>)
        requires
            has_component(session@, self.key_view()),
        ensures
            r matches Ok(b) && b == is_selected(component(session@, self.key_view())),
    {
        proof {
            reveal_strlit("true");
        }
        let c = session.entry(self.key.as_str());
        match c.properties.get("selected") {
            Some(v) => Ok(str_eq(v.as_str(), "true")),
            None => Ok(false),
        }
    }

    /// Records the event, then sets the `selected` property.
    pub fn set_selected(&self, session: &mut MockSapSession, selected: bool) -> (r: Result<
        (),
        String,
    >)
        requires
            has_component(old(session)@, self.key_view()),
        ensures
            r is Ok,
            final(session)@ == after_set_selected(old(session)@, self.key_view(), selected),
    {
        session.set_component_selected(self.key.as_str(), selected);
        Ok(())
    }

    /// Does nothing on the mock.
    pub fn maximize(&self) -> (r: Result<(), String>)
        ensures
            r is Ok,
    {
        Ok(())
    }
}

impl MockSapSession {
    proof fn lemma_keys(&self)
        ensures
            keys_of(self@.components) == entry_keys(self.components@),
            self@.components.len() == self.components@.len(),
    {
        assert(keys_of(self@.components) =~= entry_keys(self.components@));
    }

    /// A session at the login screen, with no components and no events.
    pub fn new(name: &str) -> (r: MockSapSession)
        ensures
            r@ == (SessionView {
                name: name@,
                components: Seq::empty(),
                transaction: login_transaction(),
                events: Seq::empty(),
            }),
    {
        let r = MockSapSession {
            name: owned(name),
            components: Vec::new(),
            current_transaction: owned("S000"),
            events: Vec::new(),
        };
        assert(r@.components =~= Seq::<(Seq<char>, ComponentView)>::empty());
        assert(r@.events =~= Seq::<EventView>::empty());
        r
    }

    fn record(&mut self, e: MockEvent)
        ensures
            final(self)@ == logged(old(self)@, e@),
    {
        let ghost prev = self@;
        self.events.push(e);
        assert(self@.events =~= prev.events.push(e@));
        assert(self@.components =~= prev.components);
    }

    fn entry(&self, key: &str) -> (r: &MockComponent)
        requires
            has_component(self@, key@),
        ensures
            r@ == component(self@, key@),
    {
        proof {
            self.lemma_keys();
        }
        match find_key(&self.components, key) {
            Some(i) => {
                proof {
                    lemma_first_unique(keys_of(self@.components), key@, i as int);
                }
                &self.components[i].1
            },
            None => {
                proof {
                    assert(false);
                }
                &self.components[0].1
            },
        }
    }

    /// Stores `component` under `id`, replacing what was there.
    pub fn add_component(&mut self, id: &str, component: MockComponent)
        ensures
            final(self)@ == with_component(old(self)@, id@, component@),
    {
        proof {
            self.lemma_keys();
        }
        let ghost prev = self@;
        match find_key(&self.components, id) {
            Some(i) => {
                proof {
                    lemma_first_unique(keys_of(self@.components), id@, i as int);
                }
                self.components.set(i, (owned(id), component));
                assert(self@.components =~= prev.components.update(i as int, (id@, component@)));
            },
            None => {
                self.components.push((owned(id), component));
                assert(self@.components =~= prev.components.push((id@, component@)));
            },
        }
        assert(self@.events =~= prev.events);
    }

    fn set_component_text(&mut self, key: &str, text: String)
        requires
            has_component(old(self)@, key@),
        ensures
            final(self)@ == after_set_text(old(self)@, key@, text@),
    {
        proof {
            self.lemma_keys();
        }
        let ghost s0 = self@;
        let i = match find_key(&self.components, key) {
            Some(i) => i,
            None => {
                proof {
                    assert(false);
                }
                0
            },
        };
        proof {
            lemma_first_unique(keys_of(self@.components), key@, i as int);
        }
        let id = copy_string(&self.components[i].1.id);
        self.record(MockEvent::SetText { id, value: copy_string(&text) });
        let ghost s1 = self@;
        proof {
            assert(entry_keys(self.components@) == keys_of(s1.components));
        }
        let (k, mut c) = self.components.remove(i);
        c.text = text;
        self.components.insert(i, (k, c));
        assert(self@.components =~= s1.components.update(
            i as int,
            (key@, ComponentView { text: text@, ..component(s0, key@) }),
        ));
        assert(self@.events == s1.events);
    }

    fn set_component_selected(&mut self, key: &str, b: bool)
        requires
            has_component(old(self)@, key@),
        ensures
            final(self)@ == after_set_selected(old(self)@, key@, b),
    {
        proof {
            self.lemma_keys();
        }
        let ghost s0 = self@;
        let i = match find_key(&self.components, key) {
            Some(i) => i,
            None => {
                proof {
                    assert(false);
                }
                0
            },
        };
        proof {
            lemma_first_unique(keys_of(self@.components), key@, i as int);
        }
        let id = copy_string(&self.components[i].1.id);
        self.record(MockEvent::SetSelected { id, value: b });
        let ghost s1 = self@;
        let (k, mut c) = self.components.remove(i);
        c.properties.insert(owned("selected"), bool_to_string(b));
        self.components.insert(i, (k, c));
        assert(self@.components =~= s1.components.update(
            i as int,
            (
                key@,
                ComponentView {
                    properties: assoc_insert(
                        component(s0, key@).properties,
                        "selected"@,
                        bool_text(b),
                    ),
                    ..component(s0, key@)
                },
            ),
        ));
        assert(self@.events == s1.events);
    }

    /// Sets the transaction without recording an event.
    pub fn set_transaction(&mut self, transaction: &str)
        ensures
            final(self)@ == (SessionView { transaction: transaction@, ..old(self)@ }),
    {
        self.current_transaction = owned(transaction);
    }

    /// A copy of the event log.
    pub fn events(&self) -> (r: Vec<MockEvent>)
        ensures
            event_views(r@) == self@.events,
    {
        let mut out: Vec<MockEvent> = Vec::new();
        let mut i: usize = 0;
        while i < self.events.len()
            invariant
                i <= self.events@.len(),
                out@.len() == i,
                forall|j: int| 0 <= j < i ==> out@[j]@ == self.events@[j]@,
            decreases self.events@.len() - i,
        {
            out.push(copy_event(&self.events[i]));
            i = i + 1;
        }
        assert(event_views(out@) =~= self@.events);
        out
    }

    /// Drops every recorded event.
    pub fn events_clear(&mut self)
        ensures
            final(self)@ == (SessionView { events: Seq::empty(), ..old(self)@ }),
    {
        let ghost prev = self@;
        self.events.clear();
        assert(self@.events =~= Seq::<EventView>::empty());
        assert(self@.components =~= prev.components);
    }

    fn add_built(&mut self, id: &str, r_type: &str, text: &str)
        ensures
            final(self)@ == with_component(old(self)@, id@, built(id@, r_type@, text@)),
    {
        let name = leaf_name(id);
        let mut comp = MockComponent::new(id, name.as_str(), r_type);
        comp.text = owned(text);
        self.add_component(id, comp);
    }

    /// Adds a `GuiTextField` holding `initial`.
    pub fn add_text_field(&mut self, id: &str, initial: &str) -> (r: &mut Self)
        ensures
            *final(r) == *final(self),
            r@ == with_component(old(self)@, id@, built(id@, "GuiTextField"@, initial@)),
    {
        self.add_built(id, "GuiTextField", initial);
        self
    }

    /// Adds a `GuiButton` labelled `label`.
    pub fn add_button(&mut self, id: &str, label: &str) -> (r: &mut Self)
        ensures
            *final(r) == *final(self),
            r@ == with_component(old(self)@, id@, built(id@, "GuiButton"@, label@)),
    {
        self.add_built(id, "GuiButton", label);
        self
    }

    /// Adds a `GuiCheckBox` whose `selected` property is `selected`.
    pub fn add_checkbox(&mut self, id: &str, selected: bool) -> (r: &mut Self)
        ensures
            *final(r) == *final(self),
            r@ == with_component(
                old(self)@,
                id@,
                ComponentView {
                    properties: seq![("selected"@, bool_text(selected))],
                    ..built(id@, "GuiCheckBox"@, Seq::empty())
                },
            ),
    {
        let name = leaf_name(id);
        let mut comp = MockComponent::new(id, name.as_str(), "GuiCheckBox");
        comp.properties.insert(owned("selected"), bool_to_string(selected));
        assert(comp@.properties =~= seq![("selected"@, bool_text(selected))]);
        self.add_component(id, comp);
        self
    }

    /// Adds a `GuiStatusbar` showing `msg`.
    pub fn add_statusbar(&mut self, id: &str, msg: &str) -> (r: &mut Self)
        ensures
            *final(r) == *final(self),
            r@ == with_component(old(self)@, id@, built(id@, "GuiStatusbar"@, msg@)),
    {
        self.add_built(id, "GuiStatusbar", msg);
        self
    }

    /// Adds a `GuiFrameWindow` titled `title`.
    pub fn add_window(&mut self, id: &str, title: &str) -> (r: &mut Self)
        ensures
            *final(r) == *final(self),
            r@ == with_component(old(self)@, id@, built(id@, "GuiFrameWindow"@, title@)),
    {
        self.add_built(id, "GuiFrameWindow", title);
        self
    }

    /// Records the lookup, then hands out the component under `id`, if any.
    pub fn find_by_id(&mut self, id: String) -> (r: Result<MockSapComponent, String>)
        ensures
            final(self)@ == logged(old(self)@, EventView::FindById(id@)),
            r is Ok <==> has_component(old(self)@, id@),
            r matches Ok(c) ==> c.key_view() == id@,
            r matches Err(e) ==> e@ == "Component not found"@,
    {
        self.record(MockEvent::FindById(copy_string(&id)));
        proof {
            self.lemma_keys();
        }
        match find_key(&self.components, id.as_str()) {
            Some(i) => {
                proof {
                    assert(keys_of(self@.components)[i as int] == id@);
                }
                Ok(MockSapComponent { key: id })
            },
            None => Err(owned("Component not found")),
        }
    }

    /// The session information: the current transaction.
    pub fn info(&self) -> (r: Result<MockSapSessionInfo, String>)
        ensures
            r matches Ok(i) && i.transaction_view() == self@.transaction,
    {
        Ok(MockSapSessionInfo::new(copy_string(&self.current_transaction)))
    }

    /// Records the event, then enters `transaction`.
    pub fn start_transaction(&mut self, transaction: String) -> (r: Result<(), String>)
        ensures
            r is Ok,
            final(self)@ == (SessionView {
                transaction: transaction@,
                ..logged(old(self)@, EventView::StartTransaction(transaction@))
            }),
    {
        self.record(MockEvent::StartTransaction(copy_string(&transaction)));
        self.current_transaction = transaction;
        Ok(())
    }

    /// Records the event, then returns to the login screen.
    pub fn end_transaction(&mut self) -> (r: Result<(), String>)
        ensures
            r is Ok,
            final(self)@ == (SessionView {
                transaction: login_transaction(),
                ..logged(old(self)@, EventView::EndTransaction)
            }),
    {
        self.record(MockEvent::EndTransaction);
        self.current_transaction = owned("S000");
        Ok(())
    }
}

/// Creates mock sessions.
pub struct MockSapComponentFactory;

impl MockSapComponentFactory {
    pub fn new() -> (r: MockSapComponentFactory) {
        MockSapComponentFactory
    }

    /// A fresh session named `name`.
    pub fn create_session(&self, name: &str) -> (r: MockSapSession)
        ensures
            r@ == (SessionView {
                name: name@,
                components: Seq::empty(),
                transaction: login_transaction(),
                events: Seq::empty(),
            }),
    {
        MockSapSession::new(name)
    }
}

impl Default for MockSapComponentFactory {
    fn default() -> (r: Self) {
        MockSapComponentFactory::new()
    }
}

/// The check box of the test session: unselected.
pub open spec fn test_checkbox(id: Seq<char>) -> ComponentView {
    ComponentView {
        properties: seq![("selected"@, bool_text(false))],
        ..built(id, "GuiCheckBox"@, Seq::empty())
    }
}

/// A session named `Test Session`, at the login screen, with nothing
/// recorded, holding a text field reading `Test Text`, a button labelled
/// `Press Me`, an unselected check box, a status bar reading `Status: OK`
/// and a popup window titled `Popup Window`, at the ids a typical SAP screen
/// uses.
pub fn create_test_session() -> (r: MockSapSession)
    ensures
        r@.name == "Test Session"@,
        has_component(r@, "wnd[0]/usr/txtField"@),
        has_component(r@, "wnd[0]/tbar[0]/btn[0]"@),
        has_component(r@, "wnd[0]/usr/chkBox"@),
        has_component(r@, "wnd[0]/sbar"@),
        has_component(r@, "wnd[1]"@),
        component(r@, "wnd[0]/usr/txtField"@) == built(
            "wnd[0]/usr/txtField"@,
            "GuiTextField"@,
            "Test Text"@,
        ),
        component(r@, "wnd[0]/tbar[0]/btn[0]"@) == built(
            "wnd[0]/tbar[0]/btn[0]"@,
            "GuiButton"@,
            "Press Me"@,
        ),
        component(r@, "wnd[0]/usr/chkBox"@) == test_checkbox("wnd[0]/usr/chkBox"@),
        !is_selected(component(r@, "wnd[0]/usr/chkBox"@)),
        component(r@, "wnd[0]/sbar"@) == built("wnd[0]/sbar"@, "GuiStatusbar"@, "Status: OK"@),
        component(r@, "wnd[1]"@) == built("wnd[1]"@, "GuiFrameWindow"@, "Popup Window"@),
        r@.transaction == login_transaction(),
        r@.events.len() == 0,
{
    let mut session = MockSapSession::new("Test Session");
    let ghost s0 = session@;
    session.add_text_field("wnd[0]/usr/txtField", "Test Text");
    let ghost s1 = session@;
    session.add_button("wnd[0]/tbar[0]/btn[0]", "Press Me");
    let ghost s2 = session@;
    session.add_checkbox("wnd[0]/usr/chkBox", false);
    let ghost s3 = session@;
    session.add_statusbar("wnd[0]/sbar", "Status: OK");
    let ghost s4 = session@;
    session.add_window("wnd[1]", "Popup Window");
    proof {
        let k1 = "wnd[0]/usr/txtField"@;
        let k2 = "wnd[0]/tbar[0]/btn[0]"@;
        let k3 = "wnd[0]/usr/chkBox"@;
        let k4 = "wnd[0]/sbar"@;
        let k5 = "wnd[1]"@;
        reveal_strlit("wnd[0]/usr/txtField");
        reveal_strlit("wnd[0]/tbar[0]/btn[0]");
        reveal_strlit("wnd[0]/usr/chkBox");
        reveal_strlit("wnd[0]/sbar");
        reveal_strlit("wnd[1]");
        assert(k1.len() == 19 && k2.len() == 21 && k3.len() == 17 && k4.len() == 11 && k5.len()
            == 6);
        let c1 = built(k1, "GuiTextField"@, "Test Text"@);
        let c2 = built(k2, "GuiButton"@, "Press Me"@);
        let c3 = test_checkbox(k3);
        let c4 = built(k4, "GuiStatusbar"@, "Status: OK"@);
        let c5 = built(k5, "GuiFrameWindow"@, "Popup Window"@);
        lemma_add_then_find(s0, k1, c1);
        lemma_added(s1, s2, k2, k1);
        lemma_added(s2, s3, k3, k1);
        lemma_added(s2, s3, k3, k2);
        lemma_added(s3, s4, k4, k1);
        lemma_added(s3, s4, k4, k2);
        lemma_added(s3, s4, k4, k3);
        lemma_added(s4, session@, k5, k1);
        lemma_added(s4, session@, k5, k2);
        lemma_added(s4, session@, k5, k3);
        lemma_added(s4, session@, k5, k4);
        // Each component, once added, is untouched by the later additions.
        lemma_get_insert_other(s1.components, k2, c2, k1);
        lemma_get_insert_other(s2.components, k3, c3, k1);
        lemma_get_insert_other(s3.components, k4, c4, k1);
        lemma_get_insert_other(s4.components, k5, c5, k1);
        lemma_get_insert_same(s1.components, k2, c2);
        lemma_get_insert_other(s2.components, k3, c3, k2);
        lemma_get_insert_other(s3.components, k4, c4, k2);
        lemma_get_insert_other(s4.components, k5, c5, k2);
        lemma_get_insert_same(s2.components, k3, c3);
        lemma_get_insert_other(s3.components, k4, c4, k3);
        lemma_get_insert_other(s4.components, k5, c5, k3);
        lemma_get_insert_same(s3.components, k4, c4);
        lemma_get_insert_other(s4.components, k5, c5, k4);
        lemma_get_insert_same(s4.components, k5, c5);
        // The check box's only property reads `false`.
        let p = seq![("selected"@, bool_text(false))];
        assert(p =~= assoc_insert(Seq::<(Seq<char>, Seq<char>)>::empty(), "selected"@, bool_text(false)));
        lemma_get_insert_same(Seq::<(Seq<char>, Seq<char>)>::empty(), "selected"@, bool_text(false));
        reveal_strlit("true");
        assert(bool_text(false) != "true"@) by {
            assert(bool_text(false).len() != "true"@.len());
        }
    }
    session
}

// ---------------------------------------------------------------------------
// Laws
// ---------------------------------------------------------------------------

/// A component stays once added: adding or replacing any component keeps
/// every key present.
pub proof fn lemma_add_keeps_components(s: SessionView, key: Seq<char>, c: ComponentView, q: Seq<char>)
    requires
        has_component(s, q),
    ensures
        has_component(with_component(s, key, c), q),
        has_component(with_component(s, key, c), key),
{
    lemma_insert_keys(s.components, key, c);
    let w = choose|w: int| 0 <= w < keys_of(s.components).len() && keys_of(s.components)[w] == q;
    assert(keys_of(assoc_insert(s.components, key, c)).len() >= keys_of(s.components).len());
    if has_key(keys_of(s.components), key) {
        assert(keys_of(assoc_insert(s.components, key, c))[w] == q);
    } else {
        assert(keys_of(assoc_insert(s.components, key, c))[w] == keys_of(s.components).push(key)[w]);
    }
}

/// The component just added is the one found under its key.
pub proof fn lemma_add_then_find(s: SessionView, key: Seq<char>, c: ComponentView)
    ensures
        has_component(with_component(s, key, c), key),
        component(with_component(s, key, c), key) == c,
{
    lemma_insert_keys(s.components, key, c);
    lemma_get_insert_same(s.components, key, c);
}

/// `t` is `s` with a component put under `key`: `key` and every key of `s`
/// are present in `t`.
proof fn lemma_added(s: SessionView, t: SessionView, key: Seq<char>, q: Seq<char>)
    requires
        exists|c: ComponentView| t == with_component(s, key, c),
        has_component(s, q),
    ensures
        has_component(t, q),
        has_component(t, key),
{
    let c = choose|c: ComponentView| t == with_component(s, key, c);
    lemma_add_keeps_components(s, key, c, q);
}

/// Reading the text of a component after setting it gives the text set.
pub proof fn lemma_set_then_get_text(s: SessionView, key: Seq<char>, v: Seq<char>)
    requires
        has_component(s, key),
    ensures
        has_component(after_set_text(s, key, v), key),
        component(after_set_text(s, key, v), key).text == v,
{
    let c = component(s, key);
    lemma_add_then_find(logged(s, EventView::SetText { id: c.id, value: v }), key, ComponentView { text: v, ..c });
}

/// Reading the selection of a component after setting it gives the value set.
pub proof fn lemma_set_then_get_selected(s: SessionView, key: Seq<char>, b: bool)
    requires
        has_component(s, key),
    ensures
        has_component(after_set_selected(s, key, b), key),
        is_selected(component(after_set_selected(s, key, b), key)) == b,
{
    let c = component(s, key);
    let p = assoc_insert(c.properties, "selected"@, bool_text(b));
    lemma_add_then_find(
        logged(s, EventView::SetSelected { id: c.id, value: b }),
        key,
        ComponentView { properties: p, ..c },
    );
    lemma_get_insert_same(c.properties, "selected"@, bool_text(b));
    reveal_strlit("true");
    assert(bool_text(true) =~= "true"@);
    assert(bool_text(false) != "true"@) by {
        assert(bool_text(false).len() != "true"@.len());
    }
}

/// Setting a text leaves every other component as it was.
pub proof fn lemma_set_text_leaves_others(s: SessionView, key: Seq<char>, v: Seq<char>, q: Seq<char>)
    requires
        has_component(s, key),
        q != key,
    ensures
        assoc_get(after_set_text(s, key, v).components, q) == assoc_get(s.components, q),
{
    let c = component(s, key);
    lemma_get_insert_other(s.components, key, ComponentView { text: v, ..c }, q);
}

/// Every operation appends to the log and never rewrites it: after
/// `set_text`, the old log is a prefix of the new one.
pub proof fn lemma_log_only_grows(s: SessionView, key: Seq<char>, v: Seq<char>)
    requires
        has_component(s, key),
    ensures
        after_set_text(s, key, v).events.len() == s.events.len() + 1,
        after_set_text(s, key, v).events.subrange(0, s.events.len() as int) == s.events,
{
    assert(after_set_text(s, key, v).events.subrange(0, s.events.len() as int) =~= s.events);
}

} // verus!
