//! The bar: its data sources, the refresh and render passes, and the
//! property changes that publish a line.

use vstd::prelude::*;
use vstd::string::*;

verus! {

/// Why a data source could not refresh or render.
#[derive(Debug)]
pub struct ComponentError {
    pub message: String,
}

/// A data source: it can refresh what it has sampled and render it as text.
///
/// The two spec functions are the source's own account of itself. `refreshes`
/// relates the source before one refresh to the source after it, with the
/// outcome, `None` for a success and else the error; `renders` says which
/// texts a render may give in the current state, `None` standing for a failed
/// render. A source that declares neither promises nothing: any refresh and
/// any render is then in order. The bar's contracts are stated over the two,
/// so they say of each source what that source says of itself.
pub trait Component {
    open spec fn refreshes(&self, after: &Self, failure: Option<ComponentError>) -> bool {
        true
    }

    open spec fn renders(&self, text: Option<Seq<char>>) -> bool {
        true
    }

    /// Refreshes the sampled state.
    fn tick(&mut self) -> (outcome: Result<(), ComponentError>)
        ensures
            old(self).refreshes(final(self), failure_of(outcome)),
    ;

    /// Renders the state as it was last refreshed.
    fn output(&self) -> (text: Result<String, ComponentError>)
        ensures
            self.renders(text_of(text)),
    ;
}

/// How a refresh ended: `None` where it succeeded, else its error.
pub open spec fn failure_of(outcome: Result<(), ComponentError>) -> Option<ComponentError> {
    match outcome {
        Ok(_) => None,
        Err(error) => Some(error),
    }
}

/// What a render contributes: its text, or `None` where it failed.
pub open spec fn text_of(rendered: Result<String, ComponentError>) -> Option<Seq<char>> {
    match rendered {
        Ok(s) => Some(s@),
        Err(_) => None,
    }
}

/// The text shown for a source whose render failed.
pub open spec fn fallback_text() -> Seq<char> {
    seq!['N', '/', 'A']
}

/// One source's fragment of the line: its text, or the fallback, in brackets.
pub open spec fn fragment(text: Option<Seq<char>>) -> Seq<char> {
    seq!['['] + match text {
        Some(t) => t,
        None => fallback_text(),
    } + seq![']']
}

/// The line for the given renders: the fragments in order, one space between
/// neighbours, nothing before the first or after the last.
pub open spec fn status_line(texts: Seq<Option<Seq<char>>>) -> Seq<char>
    decreases texts.len(),
{
    if texts.len() == 0 {
        Seq::empty()
    } else if texts.len() == 1 {
        fragment(texts[0])
    } else {
        status_line(texts.drop_last()) + seq![' '] + fragment(texts.last())
    }
}

/// Two parts of a line put together: a space between them where both have
/// something to show.
pub open spec fn joined(left: Seq<char>, right: Seq<char>) -> Seq<char> {
    if left.len() == 0 {
        right
    } else if right.len() == 0 {
        left
    } else {
        left + seq![' '] + right
    }
}

/// The renders held by a vector, as the contracts speak of them.
pub open spec fn texts_of(rendered: Seq<Option<String>>) -> Seq<Option<Seq<char>>> {
    Seq::new(
        rendered.len(),
        |i: int|
            match rendered[i] {
                Some(s) => Some(s@),
                None => None,
            },
    )
}

/// Builds the line from the renders of the sources, in order.
pub fn compose(rendered: &Vec<Option<String>>) -> (line: String)
    ensures
        line@ == status_line(texts_of(rendered@)),
{
    let ghost texts = texts_of(rendered@);
    let mut line = String::new();
    let mut i: usize = 0;
    while i < rendered.len()
        invariant
            i <= rendered.len(),
            texts == texts_of(rendered@),
            line@ == status_line(texts.take(i as int)),
        decreases rendered.len() - i,
    {
        let ghost before = line@;
        if i > 0 {
            line.append(" ");
        }
        line.append("[");
        match &rendered[i] {
            Some(s) => line.append(s.as_str()),
            None => line.append("N/A"),
        }
        line.append("]");
        proof {
            reveal_strlit(" ");
            reveal_strlit("[");
            reveal_strlit("N/A");
            reveal_strlit("]");
            assert(" "@ =~= seq![' ']);
            assert("["@ =~= seq!['[']);
            assert("N/A"@ =~= fallback_text());
            assert("]"@ =~= seq![']']);
            let upto = texts.take(i as int + 1);
            assert(upto.drop_last() =~= texts.take(i as int));
            assert(upto.last() == texts[i as int]);
            assert(line@ =~= if i > 0 {
                before + seq![' '] + fragment(texts[i as int])
            } else {
                before + fragment(texts[i as int])
            });
            assert(line@ =~= status_line(upto));
        }
        i += 1;
    }
    proof {
        assert(texts.take(i as int) =~= texts);
    }
    line
}

/// Why the display server could not be reached.
#[derive(Clone, Copy, Debug, PartialEq, Eq)]
pub enum ConnectFailure {
    Connection,
    ClosedExtNotSupported,
    ClosedMemInsufficient,
    ClosedReqLenExceed,
    ClosedParseErr,
    ClosedInvalidScreen,
    ClosedFdPassingFailed,
}

/// Why a bar could not be made.
#[derive(Clone, Copy, Debug, PartialEq, Eq)]
pub enum Error {
    /// The display server could not be reached.
    ConnectionError { source: ConnectFailure },
    /// The server has no screen of the preferred number.
    ScreenNotFound { screen_num: i32 },
}

/// What a connection to the display server found: the number of the
/// preferred screen, and the root window of each screen in the server's order.
pub struct Connected {
    pub screen_num: i32,
    pub roots: Vec<u32>,
}

/// How a property change combines the new data with the old.
#[derive(Clone, Copy, Debug, PartialEq, Eq)]
pub enum PropMode {
    Replace,
    Prepend,
    Append,
}

/// The atoms that the bar names.
#[derive(Clone, Copy, Debug, PartialEq, Eq)]
pub enum Atom {
    String,
    WmName,
}

/// A request to change a property of a window.
pub struct ChangeProperty {
    pub mode: PropMode,
    pub window: u32,
    pub property: Atom,
    pub kind: Atom,
    pub data: Vec<u8>,
}

impl ChangeProperty {
    /// The property's value once the request is served, given its value
    /// before.
    pub open spec fn applied(&self, before: Seq<u8>) -> Seq<u8> {
        match self.mode {
            PropMode::Replace => self.data@,
            PropMode::Prepend => self.data@ + before,
            PropMode::Append => before + self.data@,
        }
    }

    /// The request names the text of a window's name and replaces it.
    pub open spec fn renames(&self, window: u32) -> bool {
        &&& self.mode == PropMode::Replace
        &&& self.window == window
        &&& self.property == Atom::WmName
        &&& self.kind == Atom::String
    }
}

/// What the driver is to do after a turn of the bar.
pub enum Action {
    /// Send the request, wait, and take the next turn.
    Publish(ChangeProperty),
    /// Send the request and stop.
    Clear(ChangeProperty),
}

impl Action {
    /// The request to send.
    pub open spec fn request(&self) -> ChangeProperty {
        match *self {
            Action::Publish(request) => request,
            Action::Clear(request) => request,
        }
    }
}

/// The status bar: the root window it publishes to, and its data sources in
/// the order in which they are shown.
pub struct StatusBar<C: Component> {
    root: u32,
    components: Vec<C>,
}

impl<C: Component> StatusBar<C> {
    /// The root window whose name carries the status.
    pub closed spec fn root(&self) -> u32 {
        self.root
    }

    /// The data sources, in the order in which they were added.
    pub closed spec fn sources(&self) -> Seq<C> {
        self.components@
    }

    /// `texts` is one possible outcome of rendering every source in order.
    pub open spec fn rendered_as(&self, texts: Seq<Option<Seq<char>>>) -> bool {
        &&& texts.len() == self.sources().len()
        &&& forall|i: int| 0 <= i < texts.len() ==> (#[trigger] self.sources()[i]).renders(texts[i])
    }

    /// `after` is what a refresh pass that went through every source makes of
    /// the sources `before`.
    pub open spec fn all_refreshed(before: Seq<C>, after: Seq<C>) -> bool {
        &&& after.len() == before.len()
        &&& forall|j: int|
            0 <= j < before.len() ==> (#[trigger] before[j]).refreshes(&after[j], None)
    }

    /// `after` is what a refresh pass makes of the sources `before` when the
    /// source at `at` fails with `error`: the sources ahead of it are
    /// refreshed, the failing one has made its attempt, and those behind it
    /// are as they were.
    pub open spec fn stopped_at(
        before: Seq<C>,
        after: Seq<C>,
        at: int,
        error: ComponentError,
    ) -> bool {
        &&& after.len() == before.len()
        &&& 0 <= at < before.len()
        &&& forall|j: int| 0 <= j < at ==> (#[trigger] before[j]).refreshes(&after[j], None)
        &&& before[at].refreshes(&after[at], Some(error))
        &&& forall|j: int| at < j < before.len() ==> #[trigger] after[j] == before[j]
    }

    /// Makes a bar for the preferred screen of the display, with no sources.
    ///
    /// A failed connection is handed on as `ConnectionError`. A preferred
    /// screen that the display does not have gives `ScreenNotFound`.
    pub fn new(connected: Result<Connected, ConnectFailure>) -> (made: Result<Self, Error>)
        ensures
            match connected {
                Err(failure) => made == Err::<Self, Error>(
                    Error::ConnectionError { source: failure },
                ),
                Ok(found) => if 0 <= found.screen_num < found.roots@.len() {
                    &&& made is Ok
                    &&& made->Ok_0.root() == found.roots@[found.screen_num as int]
                    &&& made->Ok_0.sources() == Seq::<C>::empty()
                } else {
                    made == Err::<Self, Error>(
                        Error::ScreenNotFound { screen_num: found.screen_num },
                    )
                },
            },
    {
        match connected {
            Err(failure) => Err(Error::ConnectionError { source: failure }),
            Ok(found) => {
                if found.screen_num >= 0 && (found.screen_num as usize) < found.roots.len() {
                    let root = found.roots[found.screen_num as usize];
                    Ok(StatusBar { root, components: Vec::new() })
                } else {
                    Err(Error::ScreenNotFound { screen_num: found.screen_num })
                }
            },
        }
    }

    /// The request that publishes `value`: it replaces the name of the root
    /// window with the bytes of `value`, whatever the name was.
    pub fn set_status(&self, value: String) -> (request: ChangeProperty)
        ensures
            request.renames(self.root()),
            request.data@ == vstd::utf8::encode_utf8(value@),
            forall|before: Seq<u8>| #[trigger]
                request.applied(before) == vstd::utf8::encode_utf8(value@),
    {
        ChangeProperty {
            mode: PropMode::Replace,
            window: self.root,
            property: Atom::WmName,
            kind: Atom::String,
            data: value.as_str().as_bytes_vec(),
        }
    }

    /// The request that clears the status: it replaces the name of the root
    /// window with nothing, whatever the name was.
    pub fn clear_status(&self) -> (request: ChangeProperty)
        ensures
            request.renames(self.root()),
            request.data@ == Seq::<u8>::empty(),
            forall|before: Seq<u8>| #[trigger] request.applied(before) == Seq::<u8>::empty(),
    {
        ChangeProperty {
            mode: PropMode::Replace,
            window: self.root,
            property: Atom::WmName,
            kind: Atom::String,
            data: Vec::new(),
        }
    }

    /// Adds a source behind those that are there.
    pub fn add_component(&mut self, component: C)
        ensures
            final(self).root() == old(self).root(),
            final(self).sources() == old(self).sources().push(component),
    {
        self.components.push(component);
    }

    /// Refreshes the sources in order and stops at the first that fails, with
    /// its error.
    pub fn tick(&mut self) -> (outcome: Result<(), ComponentError>)
        ensures
            final(self).root() == old(self).root(),
            outcome is Ok ==> Self::all_refreshed(old(self).sources(), final(self).sources()),
            outcome is Err ==> exists|at: int| #[trigger]
                Self::stopped_at(
                    old(self).sources(),
                    final(self).sources(),
                    at,
                    outcome->Err_0,
                ),
    {
        let ghost before = self.components@;
        let mut i: usize = 0;
        while i < self.components.len()
            invariant
                i <= self.components.len(),
                self.root == old(self).root,
                self.components@.len() == before.len(),
                before == old(self).components@,
                forall|j: int|
                    0 <= j < i ==> (#[trigger] before[j]).refreshes(&self.components@[j], None),
                forall|j: int|
                    i <= j < before.len() ==> #[trigger] self.components@[j] == before[j],
            decreases self.components.len() - i,
        {
            let outcome = self.components[i].tick();
            match outcome {
                Ok(_) => {},
                Err(error) => {
                    proof {
                        assert(Self::stopped_at(
                            old(self).sources(),
                            self.sources(),
                            i as int,
                            error,
                        ));
                    }
                    return Err(error);
                },
            }
            i += 1;
        }
        Ok(())
    }

    /// One turn of the driver. While the bar is to go on, it refreshes the
    /// sources, renders them and gives the request that publishes the line; a
    /// failed refresh ends the turn with its error and publishes nothing.
    /// Once the bar is to stop, it touches no source and gives the request
    /// that clears the status.
    pub fn cycle(&mut self, running: bool) -> (turn: Result<Action, ComponentError>)
        ensures
            final(self).root() == old(self).root(),
            !running ==> final(self).sources() == old(self).sources() && turn is Ok
                && turn->Ok_0 is Clear && turn->Ok_0.request().renames(old(self).root())
                && turn->Ok_0.request().data@ == Seq::<u8>::empty(),
            running && turn is Err ==> exists|at: int| #[trigger]
                Self::stopped_at(
                    old(self).sources(),
                    final(self).sources(),
                    at,
                    turn->Err_0,
                ),
            running && turn is Ok ==> Self::all_refreshed(
                old(self).sources(),
                final(self).sources(),
            ) && turn->Ok_0 is Publish && turn->Ok_0.request().renames(old(self).root())
                && exists|texts: Seq<Option<Seq<char>>>| #[trigger]
                final(self).rendered_as(texts) && turn->Ok_0.request().data@
                    == vstd::utf8::encode_utf8(status_line(texts)),
    {
        if !running {
            return Ok(Action::Clear(self.clear_status()));
        }
        let ticked = self.tick();
        match ticked {
            Err(error) => {
                let ghost failure = error;
                let turn = Err(error);
                assert(turn->Err_0 == failure);
                assert(exists|at: int| #[trigger]
                    Self::stopped_at(old(self).sources(), self.sources(), at, turn->Err_0));
                turn
            },
            Ok(_) => {
                let rendered = self.get_status();
                match rendered {
                    Err(error) => Err(error),
                    Ok(line) => Ok(Action::Publish(self.set_status(line))),
                }
            },
        }
    }

    /// Renders every source in order and composes the line. A source whose
    /// render fails shows the fallback text; the line itself never fails.
    pub fn get_status(&self) -> (line: Result<String, ComponentError>)
        ensures
            line is Ok,
            exists|texts: Seq<Option<Seq<char>>>| #[trigger]
                self.rendered_as(texts) && line->Ok_0@ == status_line(texts),
            self.sources().len() == 0 ==> line->Ok_0@ == Seq::<char>::empty(),
    {
        let mut rendered: Vec<Option<String>> = Vec::new();
        let mut i: usize = 0;
        while i < self.components.len()
            invariant
                i <= self.components.len(),
                rendered@.len() == i,
                forall|j: int|
                    0 <= j < i ==> (#[trigger] self.components@[j]).renders(
                        texts_of(rendered@)[j],
                    ),
            decreases self.components.len() - i,
        {
            let text = match self.components[i].output() {
                Ok(s) => Some(s),
                Err(_) => None,
            };
            let ghost earlier = rendered@;
            rendered.push(text);
            proof {
                assert forall|j: int| 0 <= j < i implies texts_of(rendered@)[j] == texts_of(
                    earlier,
                )[j] by {
                    assert(rendered@[j] == earlier[j]);
                }
            }
            i += 1;
        }
        let line = compose(&rendered);
        proof {
            assert(self.rendered_as(texts_of(rendered@)));
        }
        Ok(line)
    }
}

} // verus!
