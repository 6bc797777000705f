use vstd::prelude::*;
use vstd::string::*;

use crate::text::{decimal, push_decimal};

verus! {

/// The least width and the least height a window may have.
pub const MIN_SIDE: u32 = 50;

/// The title that stands in for an empty one.
pub const PLACEHOLDER_TITLE: &'static str = "title";

/// A correction made by a setter to a value it was handed.
#[derive(Clone, Copy, Debug, PartialEq, Eq, Structural)]
pub enum Warning {
    /// An empty title was replaced by the placeholder.
    EmptyTitle,
    /// A width under the least side was raised to it.
    NarrowWidth,
    /// A height under the least side was raised to it.
    ShortHeight,
}

/// The diagnostic line that reports a warning.
pub open spec fn warning_text(w: Warning) -> Seq<char> {
    match w {
        Warning::EmptyTitle => "WARNING: title shouldn't be empty!"@,
        Warning::NarrowWidth => "WARNING: width (size.0) shouldn't be under 50 pixels!"@,
        Warning::ShortHeight => "WARNING: height (size.1) shouldn't be under 50 pixels!"@,
    }
}

impl Warning {
    /// The diagnostic line that reports this warning.
    pub fn message(&self) -> (r: &'static str)
        ensures
            r@ == warning_text(*self),
    {
        match self {
            Warning::EmptyTitle => "WARNING: title shouldn't be empty!",
            Warning::NarrowWidth => "WARNING: width (size.0) shouldn't be under 50 pixels!",
            Warning::ShortHeight => "WARNING: height (size.1) shouldn't be under 50 pixels!",
        }
    }
}

/// The title stored when `t` is asked for: `t` itself, or the placeholder
/// when `t` is empty.
pub open spec fn stored_title(t: Seq<char>) -> Seq<char> {
    if t.len() == 0 {
        PLACEHOLDER_TITLE@
    } else {
        t
    }
}

/// The warnings that asking for title `t` raises.
pub open spec fn title_warnings(t: Seq<char>) -> Option<Warning> {
    if t.len() == 0 {
        Some(Warning::EmptyTitle)
    } else {
        None
    }
}

/// The size stored when `req` is asked for while `cur` is stored.
///
/// A width under the least side becomes the least side. A height under the
/// least side becomes the least side and ends the request: a valid width
/// asked for beside it is not taken, the stored width stays.
pub open spec fn stored_size(cur: (u32, u32), req: (u32, u32)) -> (u32, u32) {
    let w = if req.0 < MIN_SIDE {
        MIN_SIDE
    } else if req.1 < MIN_SIDE {
        cur.0
    } else {
        req.0
    };
    let h = if req.1 < MIN_SIDE {
        MIN_SIDE
    } else {
        req.1
    };
    (w, h)
}

/// The warnings that asking for size `req` raises, width first.
pub open spec fn size_warnings(req: (u32, u32)) -> Seq<Warning> {
    (if req.0 < MIN_SIDE {
        seq![Warning::NarrowWidth]
    } else {
        Seq::empty()
    }) + (if req.1 < MIN_SIDE {
        seq![Warning::ShortHeight]
    } else {
        Seq::empty()
    })
}

/// The one-line rendering: `App "<title>" (<width>x<height>)`.
pub open spec fn terse_text(title: Seq<char>, size: (u32, u32)) -> Seq<char> {
    "App \""@ + title + "\" ("@ + decimal(size.0 as nat) + "x"@ + decimal(size.1 as nat) + ")"@
}

/// The multi-line rendering, which shows the title and the size and hides
/// the platform handles.
pub open spec fn verbose_text(title: Seq<char>, size: (u32, u32)) -> Seq<char> {
    "App {\n  [...],\n\n  title: Arc { String { \""@ + title + "\" } },\n  size: ("@
        + decimal(size.0 as nat) + ", "@ + decimal(size.1 as nat) + ")\n}"@
}

/// The version written into the initial title.
pub const VERSION: &'static str = "0.1.0";

/// The initial width of the window.
pub const INITIAL_WIDTH: u32 = 800;

/// The initial height of the window.
pub const INITIAL_HEIGHT: u32 = 600;

/// The initial title: `Snake <version>`.
pub open spec fn initial_title_text() -> Seq<char> {
    "Snake "@ + VERSION@
}

/// The title that a new context starts with and its window is opened with.
pub fn initial_title() -> (r: String)
    ensures
        r@ == initial_title_text(),
{
    let mut t = String::from_str("Snake ");
    t.append(VERSION);
    t
}

/// The size that a new context starts with and its window is opened with.
pub fn initial_size() -> (r: (u32, u32))
    ensures
        r == (INITIAL_WIDTH, INITIAL_HEIGHT),
{
    (INITIAL_WIDTH, INITIAL_HEIGHT)
}

/// A failure to bring up the platform: the video subsystem, the window or
/// its drawing surface. It carries the platform's own message.
pub struct InitError {
    message: String,
}

impl InitError {
    /// The platform's message.
    pub closed spec fn spec_message(&self) -> Seq<char> {
        self.message@
    }

    /// The platform's message.
    pub fn message(&self) -> (r: String)
        ensures
            r@ == self.spec_message(),
    {
        self.message.clone()
    }
}

/// Builds the context from the outcome of bringing up the platform, which
/// opened its window with `initial_title()` and `initial_size()`.
///
/// The platform's handles give a context with the initial title and size;
/// the platform's error gives an `InitError` with its message and no context.
pub fn init<H>(platform: Result<H, String>) -> (r: Result<App<H>, InitError>)
    ensures
        platform is Ok <==> r is Ok,
        r matches Ok(app) ==> {
            &&& app.wf()
            &&& app.spec_handles() == platform->Ok_0
            &&& app.spec_title() == initial_title_text()
            &&& app.spec_size() == (INITIAL_WIDTH, INITIAL_HEIGHT)
        },
        r matches Err(e) ==> e.spec_message() == platform->Err_0@,
{
    match platform {
        Ok(handles) => {
            proof {
                reveal_strlit("Snake ");
            }
            Ok(App { handles, title: initial_title(), size: initial_size() })
        },
        Err(message) => Err(InitError { message }),
    }
}

/// An application context: the platform handles `H`, shared by every clone,
/// and the title and size of its window.
pub struct App<H> {
    handles: H,
    title: String,
    size: (u32, u32),
}

impl<H> App<H> {
    /// The platform handles.
    pub closed spec fn spec_handles(&self) -> H {
        self.handles
    }

    /// The stored title.
    pub closed spec fn spec_title(&self) -> Seq<char> {
        self.title@
    }

    /// The stored size, width first.
    pub closed spec fn spec_size(&self) -> (u32, u32) {
        self.size
    }

    /// The title is never empty and neither side is under the least side.
    pub open spec fn wf(&self) -> bool {
        &&& self.spec_title().len() > 0
        &&& self.spec_size().0 >= MIN_SIDE
        &&& self.spec_size().1 >= MIN_SIDE
    }

    /// The platform handles.
    pub fn handles(&self) -> (r: &H)
        ensures
            *r == self.spec_handles(),
    {
        &self.handles
    }

    /// A copy of the stored title.
    pub fn title(&self) -> (r: String)
        ensures
            r@ == self.spec_title(),
    {
        self.title.clone()
    }

    /// Stores `title`, or the placeholder when `title` is empty, and reports
    /// the replacement.
    pub fn set_title(&mut self, title: String) -> (r: Option<Warning>)
        requires
            old(self).wf(),
        ensures
            final(self).wf(),
            final(self).spec_title() == stored_title(title@),
            final(self).spec_size() == old(self).spec_size(),
            final(self).spec_handles() == old(self).spec_handles(),
            r == title_warnings(title@),
    {
        if title.as_str().is_empty() {
            proof {
                reveal_strlit("title");
            }
            self.title = String::from_str(PLACEHOLDER_TITLE);
            return Some(Warning::EmptyTitle);
        }
        self.title = title;
        None
    }

    /// The stored size, width first.
    pub fn size(&self) -> (r: (u32, u32))
        ensures
            r == self.spec_size(),
    {
        self.size
    }

    /// Stores `size`, raising a side under the least side to it, and reports
    /// each side so raised; see `stored_size` for what is kept.
    pub fn set_size(&mut self, size: (u32, u32)) -> (r: Vec<Warning>)
        requires
            old(self).wf(),
        ensures
            final(self).wf(),
            final(self).spec_size() == stored_size(old(self).spec_size(), size),
            final(self).spec_title() == old(self).spec_title(),
            final(self).spec_handles() == old(self).spec_handles(),
            r@ == size_warnings(size),
    {
        let mut warnings: Vec<Warning> = Vec::new();
        if size.0 < MIN_SIDE {
            warnings.push(Warning::NarrowWidth);
            self.size.0 = MIN_SIDE;
        }
        if size.1 < MIN_SIDE {
            warnings.push(Warning::ShortHeight);
            self.size.1 = MIN_SIDE;
            assert(warnings@ =~= size_warnings(size));
            return warnings;
        }
        self.size = (if size.0 < MIN_SIDE { MIN_SIDE } else { size.0 }, size.1);
        assert(warnings@ =~= size_warnings(size));
        warnings
    }

    /// The one-line rendering of title and size.
    pub fn terse(&self) -> (r: String)
        ensures
            r@ == terse_text(self.spec_title(), self.spec_size()),
    {
        let mut s = String::from_str("App \"");
        s.append(self.title.as_str());
        s.append("\" (");
        push_decimal(&mut s, self.size.0);
        s.append("x");
        push_decimal(&mut s, self.size.1);
        s.append(")");
        s
    }

    /// The multi-line rendering of title and size.
    pub fn verbose(&self) -> (r: String)
        ensures
            r@ == verbose_text(self.spec_title(), self.spec_size()),
    {
        let mut s = String::from_str("App {\n  [...],\n\n  title: Arc { String { \"");
        s.append(self.title.as_str());
        s.append("\" } },\n  size: (");
        push_decimal(&mut s, self.size.0);
        s.append(", ");
        push_decimal(&mut s, self.size.1);
        s.append(")\n}");
        s
    }
}

impl<H: Clone> Clone for App<H> {
    /// A context with the same title and size whose handles are clones of
    /// these; for shared handles, the same platform objects.
    fn clone(&self) -> (r: Self)
        ensures
            r.spec_title() == self.spec_title(),
            r.spec_size() == self.spec_size(),
            cloned(self.spec_handles(), r.spec_handles()),
    {
        App { handles: self.handles.clone(), title: self.title.clone(), size: self.size }
    }
}

} // verus!
