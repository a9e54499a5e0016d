//! The book-keeping of a file dialog that runs beside the user interface:
//! whether one is open, and what it gave.

use vstd::prelude::*;

verus! {

/// What a file dialog gave.
#[derive(Debug)]
pub enum DialogResult {
    /// Nothing yet, or the user chose nothing.
    Nothing,
    /// The path of the program that the user chose.
    RomFile(String),
}

/// Keeps track of one file dialog at a time. The dialog itself is shown by
/// the front end, which reports what arrived from it.
#[derive(Debug)]
pub struct FileDialog {
    /// Whether a dialog is open.
    pub is_open: bool,
}

impl FileDialog {
    /// No dialog is open.
    pub fn new() -> (dialog: Self)
        ensures
            !dialog.is_open,
    {
        Self { is_open: false }
    }

    /// Notes that a dialog for choosing a program was opened.
    pub fn create_rom_dialog(&mut self)
        ensures
            final(self).is_open,
    {
        self.is_open = true;
    }

    /// Takes what arrived from the dialog since the last call: `Some` with
    /// the dialog's answer once it has closed, `None` while it is still
    /// open or none was opened. An answer closes the dialog and is handed
    /// on; without one the dialog stays as it is and the result is
    /// `DialogResult::Nothing`.
    pub fn query_result(&mut self, arrived: Option<DialogResult>) -> (result: DialogResult)
        ensures
            arrived matches Some(answer) ==> result == answer && !final(self).is_open,
            arrived is None ==> result is Nothing && final(self).is_open == old(self).is_open,
    {
        match arrived {
            Some(answer) => {
                self.is_open = false;
                answer
            },
            None => DialogResult::Nothing,
        }
    }
}

} // verus!
