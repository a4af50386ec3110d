//! The session controller: from its state and one key press, the next state,
//! what to draw, and whether to stop. The caller polls for keys, performs the
//! drawing, and stops when told.

use vstd::prelude::*;
use vstd::string::*;
use crate::display::{DisplayRegion, RegionView, after_commit, commit_draws_of, region_ok};
use crate::editor::{Edit, EditView, EditorView, Key, KeyCode, LineEditor, after_key, key_outcome};
use crate::registry::{UserRegistry, UserView, add_user, new_user};
use crate::screen::{Draw, DrawView, draws_view};
use crate::text::{copy_string, push_all};

verus! {

/// Which editor keys go to.
#[derive(Clone, Copy, Debug, PartialEq, Eq, Structural)]
pub enum Mode {
    /// The user name is being typed.
    Username,
    /// Messages are being typed.
    Main,
    /// An identity to look up is being typed; the message being typed waits.
    Lookup,
}

pub struct SessionView {
    pub region: RegionView,
    pub users: Seq<UserView>,
    pub host_id: Seq<char>,
    pub mode: Mode,
    pub login: EditorView,
    pub main: EditorView,
    pub lookup: EditorView,
}

/// One session: the screen's message region, the users, the host's identity,
/// and the three editors.
pub struct Session {
    region: DisplayRegion,
    registry: UserRegistry,
    host_id: String,
    mode: Mode,
    login: LineEditor,
    main: LineEditor,
    lookup: LineEditor,
}

impl View for Session {
    type V = SessionView;

    closed spec fn view(&self) -> SessionView {
        SessionView {
            region: self.region@,
            users: self.registry@,
            host_id: self.host_id@,
            mode: self.mode,
            login: self.login@,
            main: self.main@,
            lookup: self.lookup@,
        }
    }
}

/// What a step hands back.
pub struct Step {
    /// The operations to perform, in order.
    pub draws: Vec<Draw>,
    /// Whether the session is over.
    pub quit: bool,
}

/// The prompt of the user name.
pub open spec fn login_prompt() -> Seq<char> {
    seq!['E', 'n', 't', 'e', 'r', ' ', 'y', 'o', 'u', 'r', ' ', 'u', 's', 'e', 'r', 'n', 'a', 'm', 'e', ':', ' ']
}

/// The prompt of the lookup.
pub open spec fn lookup_prompt() -> Seq<char> {
    seq!['W', 'h', 'a', 't', ' ', 'I', 'D', '?', ' ']
}

/// What precedes the user name in the top row.
pub open spec fn username_label() -> Seq<char> {
    seq!['U', 's', 'e', 'r', 'n', 'a', 'm', 'e', ':', ' ']
}

/// What precedes the identity that the lookup took.
pub open spec fn entered_label() -> Seq<char> {
    seq!['Y', 'o', 'u', ' ', 'e', 'n', 't', 'e', 'r', 'e', 'd', ' ', 'I', 'D', ':', ' ']
}

/// The column where the user name is shown: 30 columns from the right edge,
/// or the left edge on a narrower screen.
pub open spec fn banner_column(cols: u16) -> u16 {
    if cols >= 30 {
        (cols - 30) as u16
    } else {
        0
    }
}

/// Control with Q or M ends the session.
pub open spec fn is_quit(k: Key) -> bool {
    k.ctrl && (k.code == KeyCode::Char('q') || k.code == KeyCode::Char('m'))
}

/// Control with W opens the lookup.
pub open spec fn is_lookup(k: Key) -> bool {
    k.ctrl && k.code == KeyCode::Char('w')
}

/// What holds of every session: the region is in order, and the three editors
/// sit on the input line with their prompts.
pub open spec fn session_ok(s: SessionView) -> bool {
    &&& region_ok(s.region)
    &&& s.login.row == s.region.input_line
    &&& s.main.row == s.region.input_line
    &&& s.lookup.row == s.region.input_line
    &&& s.login.prompt == login_prompt()
    &&& s.main.prompt.len() == 0
    &&& s.lookup.prompt == lookup_prompt()
}

/// The session after one key.
pub open spec fn step_of(s: SessionView, k: Key) -> SessionView {
    match s.mode {
        Mode::Username => if k.code == KeyCode::Enter {
            SessionView {
                users: s.users.push(new_user(s.login.buffer, s.host_id)),
                login: after_key(s.login, KeyCode::Enter),
                mode: Mode::Main,
                ..s
            }
        } else {
            SessionView { login: after_key(s.login, k.code), ..s }
        },
        Mode::Main => if is_quit(k) {
            s
        } else if is_lookup(k) {
            SessionView {
                mode: Mode::Lookup,
                lookup: EditorView { buffer: Seq::empty(), ..s.lookup },
                ..s
            }
        } else if k.code == KeyCode::Enter {
            SessionView {
                main: after_key(s.main, KeyCode::Enter),
                region: after_commit(s.region),
                ..s
            }
        } else {
            SessionView { main: after_key(s.main, k.code), ..s }
        },
        Mode::Lookup => if k.code == KeyCode::Enter {
            SessionView { lookup: after_key(s.lookup, KeyCode::Enter), mode: Mode::Main, ..s }
        } else {
            SessionView { lookup: after_key(s.lookup, k.code), ..s }
        },
    }
}

/// What an editor draws for a key other than Enter.
pub open spec fn edit_draws_of(e: EditorView, code: KeyCode) -> Seq<DrawView> {
    match key_outcome(e, code) {
        EditView::Drawn(d) => d,
        EditView::Committed(_) => Seq::empty(),
    }
}

/// What one key draws.
pub open spec fn step_draws_of(s: SessionView, k: Key) -> Seq<DrawView> {
    match s.mode {
        Mode::Username => if k.code == KeyCode::Enter {
            seq![
                DrawView::MoveTo(0, (s.region.input_line + 1) as u16),
                DrawView::ClearLine,
                DrawView::MoveTo(banner_column(s.region.cols), 0),
                DrawView::Print(username_label() + s.login.buffer),
            ]
        } else {
            edit_draws_of(s.login, k.code)
        },
        Mode::Main => if is_quit(k) {
            Seq::empty()
        } else if is_lookup(k) {
            seq![
                DrawView::ClearLine,
                DrawView::MoveTo(1, s.region.input_line),
                DrawView::Print(lookup_prompt()),
            ]
        } else if k.code == KeyCode::Enter {
            commit_draws_of(s.region, s.main.buffer)
        } else {
            edit_draws_of(s.main, k.code)
        },
        Mode::Lookup => if k.code == KeyCode::Enter {
            seq![
                DrawView::MoveTo(0, (s.region.input_line + 1) as u16),
                DrawView::ClearLine,
                DrawView::Print(entered_label() + s.lookup.buffer),
            ]
        } else {
            edit_draws_of(s.lookup, k.code)
        },
    }
}

/// Whether one key ends the session.
pub open spec fn step_quits(s: SessionView, k: Key) -> bool {
    s.mode == Mode::Main && is_quit(k)
}

/// What is drawn at start: the screen and box, then the user name prompt on
/// the input line.
pub open spec fn session_opening_of(s: SessionView) -> Seq<DrawView> {
    crate::display::opening_of(s.region) + seq![
        DrawView::MoveTo(1, s.region.input_line),
        DrawView::Print(login_prompt()),
    ]
}

/// The text of a literal whose characters are given.
fn text_of(lit: &str) -> (r: String)
    ensures
        r@ == lit@,
{
    String::from_str(lit)
}

fn login_prompt_text() -> (r: String)
    ensures
        r@ == login_prompt(),
{
    let r = text_of("Enter your username: ");
    proof {
        reveal_strlit("Enter your username: ");
    }
    assert(r@ =~= login_prompt());
    r
}

fn lookup_prompt_text() -> (r: String)
    ensures
        r@ == lookup_prompt(),
{
    let r = text_of("What ID? ");
    proof {
        reveal_strlit("What ID? ");
    }
    assert(r@ =~= lookup_prompt());
    r
}

fn username_label_text() -> (r: String)
    ensures
        r@ == username_label(),
{
    let r = text_of("Username: ");
    proof {
        reveal_strlit("Username: ");
    }
    assert(r@ =~= username_label());
    r
}

fn entered_label_text() -> (r: String)
    ensures
        r@ == entered_label(),
{
    let r = text_of("You entered ID: ");
    proof {
        reveal_strlit("You entered ID: ");
    }
    assert(r@ =~= entered_label());
    r
}

/// The draws of an editor's answer to a key other than Enter.
fn drawn(e: Edit) -> (ops: Vec<Draw>)
    ensures
        e@ is Drawn ==> draws_view(ops@) == e@->Drawn_0,
        e@ is Committed ==> ops@.len() == 0,
{
    match e {
        Edit::Drawn(ops) => ops,
        Edit::Committed(_) => Vec::new(),
    }
}

impl Session {
    /// A session on a screen `cols` wide and `rows` high, for the host with
    /// this identity, waiting for the user name; none where the screen has no
    /// room for the box and the input line.
    pub fn new(cols: u16, rows: u16, host_id: String) -> (r: Option<Session>)
        ensures
            r is Some <==> cols >= 3 && rows >= 4,
            r is Some ==> session_ok(r->0@),
            r is Some ==> r->0@ == (SessionView {
                region: RegionView { cols, rows, input_line: (rows - 2) as u16, cursor_line: 0 },
                users: Seq::empty(),
                host_id: host_id@,
                mode: Mode::Username,
                login: EditorView { prompt: login_prompt(), row: (rows - 2) as u16, buffer: Seq::empty() },
                main: EditorView { prompt: Seq::empty(), row: (rows - 2) as u16, buffer: Seq::empty() },
                lookup: EditorView { prompt: lookup_prompt(), row: (rows - 2) as u16, buffer: Seq::empty() },
            }),
    {
        match DisplayRegion::new(cols, rows) {
            None => None,
            Some(region) => {
                let row = region.input_line();
                Some(Session {
                    region,
                    registry: UserRegistry::new(),
                    host_id,
                    mode: Mode::Username,
                    login: LineEditor::new(login_prompt_text(), row),
                    main: LineEditor::new(String::new(), row),
                    lookup: LineEditor::new(lookup_prompt_text(), row),
                })
            },
        }
    }

    /// What to draw at start.
    pub fn opening(&self) -> (ops: Vec<Draw>)
        requires
            session_ok(self@),
        ensures
            draws_view(ops@) == session_opening_of(self@),
    {
        let mut ops = self.region.opening();
        ops.push(Draw::MoveTo(1, self.region.input_line()));
        ops.push(Draw::Print(self.login.prompt()));
        assert(draws_view(ops@) =~= session_opening_of(self@));
        ops
    }

    /// Handles one key press. While the user name is typed, keys edit it and
    /// Enter adds the user to the registry and shows the name. While messages
    /// are typed, Control with Q or M ends the session, Control with W opens
    /// the lookup, Enter writes the message into the region, and other keys
    /// edit it. While the lookup is open, keys edit it and Enter shows what was
    /// entered and goes back to messages.
    pub fn handle(&mut self, key: Key) -> (step: Step)
        requires
            session_ok(old(self)@),
        ensures
            final(self)@ == step_of(old(self)@, key),
            session_ok(final(self)@),
            draws_view(step.draws@) == step_draws_of(old(self)@, key),
            step.quit == step_quits(old(self)@, key),
    {
        let ghost s = self@;
        let input_line = self.region.input_line();
        match self.mode {
            Mode::Username => {
                if key.code == KeyCode::Enter {
                    let name = self.login.commit();
                    let mut banner = username_label_text();
                    push_all(&mut banner, name.as_str());
                    let _ = add_user(&mut self.registry, name, copy_string(&self.host_id));
                    self.mode = Mode::Main;
                    let draws = vec![
                        Draw::MoveTo(0, input_line + 1),
                        Draw::ClearLine,
                        Draw::MoveTo(
                            if self.region.cols() >= 30 {
                                self.region.cols() - 30
                            } else {
                                0
                            },
                            0,
                        ),
                        Draw::Print(banner),
                    ];
                    assert(draws_view(draws@) =~= step_draws_of(s, key));
                    Step { draws, quit: false }
                } else {
                    let draws = drawn(self.login.handle(key.code));
                    Step { draws, quit: false }
                }
            },
            Mode::Main => {
                if key.ctrl && (key.code == KeyCode::Char('q') || key.code == KeyCode::Char('m')) {
                    let draws: Vec<Draw> = Vec::new();
                    assert(draws_view(draws@) =~= step_draws_of(s, key));
                    Step { draws, quit: true }
                } else if key.ctrl && key.code == KeyCode::Char('w') {
                    self.lookup = LineEditor::new(lookup_prompt_text(), input_line);
                    self.mode = Mode::Lookup;
                    let draws = vec![Draw::ClearLine, Draw::MoveTo(1, input_line), Draw::Print(lookup_prompt_text())];
                    assert(draws_view(draws@) =~= step_draws_of(s, key));
                    Step { draws, quit: false }
                } else if key.code == KeyCode::Enter {
                    let text = self.main.commit();
                    let draws = self.region.commit_line(&text);
                    Step { draws, quit: false }
                } else {
                    let draws = drawn(self.main.handle(key.code));
                    Step { draws, quit: false }
                }
            },
            Mode::Lookup => {
                if key.code == KeyCode::Enter {
                    let id = self.lookup.commit();
                    let mut line = entered_label_text();
                    push_all(&mut line, id.as_str());
                    self.mode = Mode::Main;
                    let draws = vec![Draw::MoveTo(0, input_line + 1), Draw::ClearLine, Draw::Print(line)];
                    assert(draws_view(draws@) =~= step_draws_of(s, key));
                    Step { draws, quit: false }
                } else {
                    let draws = drawn(self.lookup.handle(key.code));
                    Step { draws, quit: false }
                }
            },
        }
    }

    /// Which editor keys go to.
    pub fn mode(&self) -> (r: Mode)
        ensures
            r == self@.mode,
    {
        self.mode
    }

    /// The message being typed.
    pub fn message(&self) -> (r: String)
        ensures
            r@ == self@.main.buffer,
    {
        self.main.text()
    }

    /// The identity being typed in the lookup.
    pub fn lookup_text(&self) -> (r: String)
        ensures
            r@ == self@.lookup.buffer,
    {
        self.lookup.text()
    }

    /// The user name being typed.
    pub fn username_text(&self) -> (r: String)
        ensures
            r@ == self@.login.buffer,
    {
        self.login.text()
    }

    /// The users added so far.
    pub fn registry(&self) -> (r: &UserRegistry)
        ensures
            r@ == self@.users,
    {
        &self.registry
    }

    /// The message region.
    pub fn region(&self) -> (r: &DisplayRegion)
        ensures
            r@ == self@.region,
    {
        &self.region
    }
}

/// While the lookup is open, no key changes the message being typed, the
/// message region or the users, and none ends the session.
pub proof fn lemma_lookup_leaves_message(s: SessionView, k: Key)
    requires
        s.mode == Mode::Lookup,
    ensures
        step_of(s, k).main == s.main,
        step_of(s, k).region == s.region,
        step_of(s, k).users == s.users,
        !step_quits(s, k),
{
}

/// Outside the user name prompt the registry never grows, and the session
/// never goes back to that prompt.
pub proof fn lemma_registry_grows_at_login_only(s: SessionView, k: Key)
    requires
        s.mode != Mode::Username,
    ensures
        step_of(s, k).users == s.users,
        step_of(s, k).mode != Mode::Username,
{
}

} // verus!
