//! Display configuration of a windowed application: a title and a window
//! size kept valid by their setters, the shared platform handles beside
//! them, and the two textual renderings of the whole.

mod app;
mod laws;
mod text;

pub use app::{
    size_warnings, stored_size, stored_title, terse_text, title_warnings, verbose_text,
    warning_text, initial_title_text, initial_title, initial_size, init, App, InitError, Warning,
    INITIAL_HEIGHT, INITIAL_WIDTH, MIN_SIDE, PLACEHOLDER_TITLE, VERSION,
};
pub use laws::{lemma_nonempty_title_kept, lemma_retitled_clone_apart, lemma_valid_size_kept};
pub use text::{decimal, digit_char, push_decimal};
