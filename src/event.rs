//! Input events as the host sees them, and their translation into the
//! structured record that a guest module receives.

use vstd::prelude::*;

verus! {

/// A key, as far as the host tells keys apart.
#[derive(Debug, Clone, PartialEq, Eq)]
pub enum KeyCode {
    Char(char),
    Enter,
    Tab,
    /// Any other key, by the name its input source gives it.
    Named(String),
}

#[derive(Debug, Clone, PartialEq, Eq)]
pub enum KeyEventKind {
    Press,
    Repeat,
    Release,
}

#[derive(Debug, Clone, Copy, PartialEq, Eq, Structural)]
pub struct Modifiers {
    pub shift: bool,
    pub control: bool,
    pub alt: bool,
    pub super_key: bool,
    pub hyper: bool,
    pub meta: bool,
}

#[derive(Debug, Clone, PartialEq, Eq)]
pub struct KeyEvent {
    pub code: KeyCode,
    pub modifiers: Modifiers,
    pub kind: KeyEventKind,
}

#[derive(Debug, Clone, PartialEq, Eq)]
pub enum MouseButton {
    Left,
    Right,
    Middle,
}

#[derive(Debug, Clone, PartialEq, Eq)]
pub enum MouseEventKind {
    Down(MouseButton),
    Up(MouseButton),
    Drag(MouseButton),
    Moved,
    ScrollDown,
    ScrollUp,
    ScrollLeft,
    ScrollRight,
}

#[derive(Debug, Clone, PartialEq, Eq)]
pub struct MouseEvent {
    pub kind: MouseEventKind,
    pub column: u16,
    pub row: u16,
    pub modifiers: Modifiers,
}

#[derive(Debug, Clone, PartialEq, Eq)]
pub enum InputEvent {
    FocusGained,
    FocusLost,
    Key(KeyEvent),
    Mouse(MouseEvent),
    Paste(String),
    Resize(u16, u16),
}

/// One value of a guest record.
#[derive(Debug, Clone, PartialEq, Eq)]
pub enum Field {
    Text(String),
    Int(u64),
    /// A nested record of named flags.
    Flags(Vec<(String, bool)>),
}

/// What a [`Field`] holds, with strings as character sequences.
pub enum FieldView {
    Text(Seq<char>),
    Int(u64),
    Flags(Seq<(Seq<char>, bool)>),
}

pub open spec fn flags_view(f: Seq<(String, bool)>) -> Seq<(Seq<char>, bool)> {
    f.map_values(|p: (String, bool)| (p.0@, p.1))
}

impl View for Field {
    type V = FieldView;

    open spec fn view(&self) -> FieldView {
        match self {
            Field::Text(s) => FieldView::Text(s@),
            Field::Int(n) => FieldView::Int(*n),
            Field::Flags(f) => FieldView::Flags(flags_view(f@)),
        }
    }
}

/// A structured value handed to a guest: named fields in order.
pub type Record = Vec<(String, Field)>;

pub open spec fn record_view(r: Seq<(String, Field)>) -> Seq<(Seq<char>, FieldView)> {
    r.map_values(|p: (String, Field)| (p.0@, p.1@))
}

pub open spec fn modifiers_spec(m: Modifiers) -> Seq<(Seq<char>, bool)> {
    seq![
        ("Shift"@, m.shift),
        ("Ctrl"@, m.control),
        ("Alt"@, m.alt),
        ("Super"@, m.super_key),
        ("Hyper"@, m.hyper),
        ("Meta"@, m.meta),
    ]
}

pub open spec fn key_code_spec(c: KeyCode) -> Seq<char> {
    match c {
        KeyCode::Char(ch) => seq![ch],
        KeyCode::Enter => "Enter"@,
        KeyCode::Tab => "Tab"@,
        KeyCode::Named(s) => s@,
    }
}

pub open spec fn key_kind_spec(k: KeyEventKind) -> Seq<char> {
    match k {
        KeyEventKind::Press => "Press"@,
        KeyEventKind::Repeat => "Repeat"@,
        KeyEventKind::Release => "Release"@,
    }
}

pub open spec fn button_spec(b: MouseButton) -> Seq<char> {
    match b {
        MouseButton::Left => "Left"@,
        MouseButton::Right => "Right"@,
        MouseButton::Middle => "Middle"@,
    }
}

/// The "kind" and "button" texts of a mouse event.
pub open spec fn mouse_kind_spec(k: MouseEventKind) -> (Seq<char>, Seq<char>) {
    match k {
        MouseEventKind::Down(b) => ("Down"@, button_spec(b)),
        MouseEventKind::Up(b) => ("Up"@, button_spec(b)),
        MouseEventKind::Drag(b) => ("Drag"@, button_spec(b)),
        MouseEventKind::Moved => ("Moved"@, "None"@),
        MouseEventKind::ScrollDown => ("ScrollDown"@, "None"@),
        MouseEventKind::ScrollUp => ("ScrollUp"@, "None"@),
        MouseEventKind::ScrollLeft => ("ScrollLeft"@, "None"@),
        MouseEventKind::ScrollRight => ("ScrollRight"@, "None"@),
    }
}

/// The record a guest receives for an event.
pub open spec fn event_spec(e: InputEvent) -> Seq<(Seq<char>, FieldView)> {
    match e {
        InputEvent::FocusGained => seq![("type"@, FieldView::Text("FocusGained"@))],
        InputEvent::FocusLost => seq![("type"@, FieldView::Text("FocusLost"@))],
        InputEvent::Key(k) => seq![
            ("type"@, FieldView::Text("Key"@)),
            ("code"@, FieldView::Text(key_code_spec(k.code))),
            ("modifiers"@, FieldView::Flags(modifiers_spec(k.modifiers))),
            ("kind"@, FieldView::Text(key_kind_spec(k.kind))),
        ],
        InputEvent::Mouse(m) => seq![
            ("type"@, FieldView::Text("Mouse"@)),
            ("x"@, FieldView::Int(m.column as u64)),
            ("y"@, FieldView::Int(m.row as u64)),
            ("kind"@, FieldView::Text(mouse_kind_spec(m.kind).0)),
            ("button"@, FieldView::Text(mouse_kind_spec(m.kind).1)),
            ("modifiers"@, FieldView::Flags(modifiers_spec(m.modifiers))),
        ],
        InputEvent::Paste(s) => seq![
            ("type"@, FieldView::Text("Paste"@)),
            ("text"@, FieldView::Text(s@)),
        ],
        InputEvent::Resize(x, y) => seq![
            ("type"@, FieldView::Text("Resize"@)),
            ("x"@, FieldView::Int(x as u64)),
            ("y"@, FieldView::Int(y as u64)),
        ],
    }
}

/// Relies on String::push: the character is appended at the end.
#[verifier::external_body]
fn push_char(s: &mut String, c: char)
    ensures
        final(s)@ == old(s)@.push(c),
{
    s.push(c)
}

fn text(s: &str) -> (r: String)
    ensures
        r@ == s@,
{
    s.to_owned()
}

pub fn format_modifiers(m: &Modifiers) -> (r: Vec<(String, bool)>)
    ensures
        flags_view(r@) == modifiers_spec(*m),
{
    let mut v: Vec<(String, bool)> = Vec::new();
    v.push((text("Shift"), m.shift));
    v.push((text("Ctrl"), m.control));
    v.push((text("Alt"), m.alt));
    v.push((text("Super"), m.super_key));
    v.push((text("Hyper"), m.hyper));
    v.push((text("Meta"), m.meta));
    assert(flags_view(v@) =~= modifiers_spec(*m));
    v
}

pub fn format_key_code(c: &KeyCode) -> (r: String)
    ensures
        r@ == key_code_spec(*c),
{
    match c {
        KeyCode::Char(ch) => {
            let mut s = String::new();
            push_char(&mut s, *ch);
            assert(s@ =~= seq![*ch]);
            s
        },
        KeyCode::Enter => text("Enter"),
        KeyCode::Tab => text("Tab"),
        KeyCode::Named(s) => s.clone(),
    }
}

fn format_key_kind(k: &KeyEventKind) -> (r: String)
    ensures
        r@ == key_kind_spec(*k),
{
    match k {
        KeyEventKind::Press => text("Press"),
        KeyEventKind::Repeat => text("Repeat"),
        KeyEventKind::Release => text("Release"),
    }
}

fn format_button(b: &MouseButton) -> (r: String)
    ensures
        r@ == button_spec(*b),
{
    match b {
        MouseButton::Left => text("Left"),
        MouseButton::Right => text("Right"),
        MouseButton::Middle => text("Middle"),
    }
}

fn format_mouse_kind(k: &MouseEventKind) -> (r: (String, String))
    ensures
        r.0@ == mouse_kind_spec(*k).0,
        r.1@ == mouse_kind_spec(*k).1,
{
    match k {
        MouseEventKind::Down(b) => (text("Down"), format_button(b)),
        MouseEventKind::Up(b) => (text("Up"), format_button(b)),
        MouseEventKind::Drag(b) => (text("Drag"), format_button(b)),
        MouseEventKind::Moved => (text("Moved"), text("None")),
        MouseEventKind::ScrollDown => (text("ScrollDown"), text("None")),
        MouseEventKind::ScrollUp => (text("ScrollUp"), text("None")),
        MouseEventKind::ScrollLeft => (text("ScrollLeft"), text("None")),
        MouseEventKind::ScrollRight => (text("ScrollRight"), text("None")),
    }
}

pub fn format_key_events(k: &KeyEvent) -> (r: Record)
    ensures
        record_view(r@) == event_spec(InputEvent::Key(*k)),
{
    let mut v: Record = Vec::new();
    v.push((text("type"), Field::Text(text("Key"))));
    v.push((text("code"), Field::Text(format_key_code(&k.code))));
    v.push((text("modifiers"), Field::Flags(format_modifiers(&k.modifiers))));
    v.push((text("kind"), Field::Text(format_key_kind(&k.kind))));
    assert(record_view(v@) =~= event_spec(InputEvent::Key(*k)));
    v
}

pub fn format_mouse_events(m: &MouseEvent) -> (r: Record)
    ensures
        record_view(r@) == event_spec(InputEvent::Mouse(*m)),
{
    let (kind, button) = format_mouse_kind(&m.kind);
    let mut v: Record = Vec::new();
    v.push((text("type"), Field::Text(text("Mouse"))));
    v.push((text("x"), Field::Int(m.column as u64)));
    v.push((text("y"), Field::Int(m.row as u64)));
    v.push((text("kind"), Field::Text(kind)));
    v.push((text("button"), Field::Text(button)));
    v.push((text("modifiers"), Field::Flags(format_modifiers(&m.modifiers))));
    assert(record_view(v@) =~= event_spec(InputEvent::Mouse(*m)));
    v
}

pub fn format_paste_events(p: &String) -> (r: Record)
    ensures
        record_view(r@) == event_spec(InputEvent::Paste(*p)),
{
    let mut v: Record = Vec::new();
    v.push((text("type"), Field::Text(text("Paste"))));
    v.push((text("text"), Field::Text(p.clone())));
    assert(record_view(v@) =~= event_spec(InputEvent::Paste(*p)));
    v
}

pub fn format_resize_events(x: u16, y: u16) -> (r: Record)
    ensures
        record_view(r@) == event_spec(InputEvent::Resize(x, y)),
{
    let mut v: Record = Vec::new();
    v.push((text("type"), Field::Text(text("Resize"))));
    v.push((text("x"), Field::Int(x as u64)));
    v.push((text("y"), Field::Int(y as u64)));
    assert(record_view(v@) =~= event_spec(InputEvent::Resize(x, y)));
    v
}

/// Translates any input event into the record its guest receives.
pub fn format_event(e: &InputEvent) -> (r: Record)
    ensures
        record_view(r@) == event_spec(*e),
{
    match e {
        InputEvent::FocusGained => {
            let mut v: Record = Vec::new();
            v.push((text("type"), Field::Text(text("FocusGained"))));
            assert(record_view(v@) =~= event_spec(*e));
            v
        },
        InputEvent::FocusLost => {
            let mut v: Record = Vec::new();
            v.push((text("type"), Field::Text(text("FocusLost"))));
            assert(record_view(v@) =~= event_spec(*e));
            v
        },
        InputEvent::Key(k) => format_key_events(k),
        InputEvent::Mouse(m) => format_mouse_events(m),
        InputEvent::Paste(p) => format_paste_events(p),
        InputEvent::Resize(x, y) => format_resize_events(*x, *y),
    }
}

} // verus!
