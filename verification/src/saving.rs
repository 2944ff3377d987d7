//! Saving: where the document goes, whether the user is asked first, and
//! what is to be done on disk. The application reads and writes the file;
//! the decisions are made here.

use crate::app::{ActiveArea, App, PendingState};
use crate::document::joined;
use crate::popup::{ConfirmationPopup, Popup, PopupResult};
use vstd::prelude::*;
use vstd::string::*;

verus! {

/// Where a save goes and under which terms.
#[derive(Debug)]
pub struct SaveTarget {
    pub path: String,
    /// The path is that of the file that the editor was opened on.
    pub is_current_file: bool,
    /// The user asked to overwrite without being asked.
    pub force: bool,
    /// No answer of a popup stands, so the user can be asked.
    pub may_ask: bool,
}

/// What is to be done on disk for a save.
#[derive(Debug)]
pub enum SaveAction {
    /// Nothing yet: the user is asked first whether to overwrite the file.
    AwaitConfirmation,
    /// Nothing is to be written; the directory of the path is to be made
    /// where the file does not exist.
    Nothing { create_directory: bool },
    /// `content` is to be written to `path`, after the directory of the path
    /// is made where the file does not exist.
    Write { path: String, content: String, create_directory: bool },
}

/// Whether one of `args` is the flag `--force`.
pub open spec fn has_force_flag(args: Seq<String>) -> bool {
    exists|i: int| 0 <= i < args.len() && (#[trigger] args[i])@ == "--force"@
}

/// Whether the document differs from what is on disk: from the contents of
/// the file where it exists, and from nothing where it does not.
pub open spec fn differs_from_disk(content: Seq<char>, file_contents: Option<String>) -> bool {
    match file_contents {
        Some(text) => text@ != content,
        None => content.len() > 0,
    }
}

/// Whether the user is asked before the save: the file exists, it is not
/// the file that the editor was opened on, it would change, the user did not
/// ask to force the save, and no answer of a popup stands.
pub open spec fn asks_first(
    target: SaveTarget,
    content: Seq<char>,
    file_contents: Option<String>,
) -> bool {
    file_contents is Some && !target.is_current_file && differs_from_disk(content, file_contents)
        && !target.force && target.may_ask
}

/// Whether a save to some path waits for confirmation.
pub open spec fn save_is_pending(pending: Seq<PendingState>) -> bool {
    exists|i: int| 0 <= i < pending.len() && (#[trigger] pending[i]) is Saving
}

/// The message of the popup that asks whether to overwrite a file.
pub open spec fn overwrite_message() -> Seq<char> {
    "Confirm Overwrite of file"@
}

impl App {
    /// Whether the document differs from the contents of a file.
    pub fn file_has_changes(&self, editor_content: String, file_contents: String) -> (b: bool)
        ensures
            b == (editor_content@ != file_contents@),
    {
        !(file_contents == editor_content)
    }

    /// Where a save with the arguments `args` goes: to the first argument if
    /// there is one, else to the file that the editor was opened on, else to
    /// `untitled`. The flag `--force` among the arguments forces the save.
    pub fn save_target(&self, args: &Vec<String>) -> (target: SaveTarget)
        ensures
            target.path@ == if args.len() > 0 {
                args@[0]@
            } else {
                match self.file_path {
                    Some(path) => path@,
                    None => "untitled"@,
                }
            },
            target.is_current_file == (args.len() == 0 && self.file_path is Some),
            target.force == has_force_flag(args@),
            target.may_ask == (self.popup_result == PopupResult::Unanswered),
    {
        let may_ask = self.popup_result == PopupResult::Unanswered;
        if args.len() > 0 {
            let flag = "--force".to_owned();
            let mut force = false;
            let mut i: usize = 0;
            while i < args.len()
                invariant
                    i <= args.len(),
                    flag@ == "--force"@,
                    force == exists|k: int| 0 <= k < i && (#[trigger] args@[k])@ == "--force"@,
                decreases args.len() - i,
            {
                if args[i] == flag {
                    force = true;
                }
                i = i + 1;
            }
            SaveTarget { path: args[0].clone(), is_current_file: false, force, may_ask }
        } else {
            match &self.file_path {
                Some(path) => SaveTarget {
                    path: path.clone(),
                    is_current_file: true,
                    force: false,
                    may_ask,
                },
                None => SaveTarget {
                    path: "untitled".to_owned(),
                    is_current_file: false,
                    force: false,
                    may_ask,
                },
            }
        }
    }

    /// Decides a save to `target`, given the contents of the file there, or
    /// `None` if there is no file. Where the user is asked first, the
    /// confirmation popup opens and the save is pending; else nothing
    /// changes, and the document is to be written if it differs from what is
    /// on disk.
    pub fn save(&mut self, target: SaveTarget, file_contents: Option<String>) -> (action:
        SaveAction)
        ensures
            final(self).editor == old(self).editor,
            asks_first(target, joined(old(self).editor@.lines), file_contents) ==> {
                &&& action is AwaitConfirmation
                &&& final(self).popup matches Some(Popup::Confirmation(p)) && p.message@
                    == overwrite_message()
                &&& final(self).active_area == ActiveArea::Popup
                &&& final(self).pending_states@ == old(self).pending_states@.push(
                    PendingState::Saving(target.path),
                )
                &&& final(self).same_around_editor(
                    App {
                        popup: final(self).popup,
                        active_area: ActiveArea::Popup,
                        pending_states: final(self).pending_states,
                        ..*old(self)
                    },
                )
            },
            !asks_first(target, joined(old(self).editor@.lines), file_contents) ==> {
                &&& final(self).same_around_editor(*old(self))
                &&& if differs_from_disk(joined(old(self).editor@.lines), file_contents) {
                    action matches SaveAction::Write { path, content, create_directory }
                        && path == target.path && content@ == joined(old(self).editor@.lines)
                        && create_directory == (file_contents is None)
                } else {
                    action matches SaveAction::Nothing { create_directory } && create_directory
                        == (file_contents is None)
                }
            },
    {
        let content = self.editor.content_text();
        let exists = file_contents.is_some();
        let has_changes = match file_contents {
            Some(text) => !(text == content),
            None => content.as_str().unicode_len() > 0,
        };
        if exists && !target.is_current_file && has_changes && !target.force && target.may_ask {
            let popup = Popup::Confirmation(ConfirmationPopup::new("Confirm Overwrite of file"));
            self.open_popup(popup);
            self.pending_states.push(PendingState::Saving(target.path));
            return SaveAction::AwaitConfirmation;
        }
        if has_changes {
            SaveAction::Write { path: target.path, content, create_directory: !exists }
        } else {
            SaveAction::Nothing { create_directory: !exists }
        }
    }

    /// After a save that went well on the way out: the application quits,
    /// unless a save waits for confirmation; then quitting waits behind it.
    pub fn exit_after_save(&mut self)
        ensures
            final(self).editor == old(self).editor,
            save_is_pending(old(self).pending_states@) ==> final(self).pending_states@ == old(self).pending_states@.push(PendingState::Quitting) && final(self).same_around_editor(
                App { pending_states: final(self).pending_states, ..*old(self) },
            ),
            !save_is_pending(old(self).pending_states@) ==> final(self).same_around_editor(
                App { running: false, ..*old(self) },
            ),
    {
        let mut pending = false;
        let mut i: usize = 0;
        while i < self.pending_states.len()
            invariant
                i <= self.pending_states.len(),
                *self == *old(self),
                pending == exists|k: int|
                    0 <= k < i && (#[trigger] self.pending_states@[k]) is Saving,
            decreases self.pending_states.len() - i,
        {
            match &self.pending_states[i] {
                PendingState::Saving(_) => {
                    pending = true;
                },
                _ => {},
            }
            i = i + 1;
        }
        if pending {
            self.pending_states.push(PendingState::Quitting);
        } else {
            self.quit();
        }
    }

    /// Whether the answer to the confirmation popup lets the save that waits
    /// first go ahead.
    pub open spec fn save_is_confirmed(self) -> bool {
        self.pending_states@.len() > 0 && self.pending_states@[0] is Saving && self.popup_result
            == PopupResult::Bool(true)
    }

    /// Whether the answer to the confirmation popup turns the save down that
    /// waits first.
    pub open spec fn save_is_declined(self) -> bool {
        self.pending_states@.len() > 0 && self.pending_states@[0] is Saving && self.popup_result
            == PopupResult::Bool(false)
    }

    /// Whether the application quits once the answer is handled: quitting
    /// waits first, or directly behind a save that is confirmed.
    pub open spec fn quits_on_response(self) -> bool {
        self.pending_states@.len() > 0 && (self.pending_states@[0] is Quitting || (
        self.save_is_confirmed() && self.pending_states@.len() > 1 && self.pending_states@[1]
            is Quitting))
    }

    /// Handles the answer to the confirmation popup by what waits first.
    ///
    /// A save that is confirmed is handed back to be carried out without
    /// asking again; it leaves the queue, the answer is used up and the popup
    /// closes. A save that is declined stays in the queue, while the answer
    /// is used up and the popup closes. Where quitting waits first, or
    /// directly behind a confirmed save, the queue empties and the
    /// application quits. Else nothing changes.
    pub fn handle_confirmation_popup_response(&mut self) -> (save: Option<SaveTarget>)
        ensures
            final(self).editor == old(self).editor,
            save is Some <==> old(self).save_is_confirmed(),
            save matches Some(target) ==> PendingState::Saving(target.path) == old(self).pending_states@[0] && !target.is_current_file && !target.force && !target.may_ask,
            final(self).running == (old(self).running && !old(self).quits_on_response()),
            final(self).pending_states@ == if old(self).quits_on_response() {
                Seq::empty()
            } else if old(self).save_is_confirmed() {
                old(self).pending_states@.remove(0)
            } else {
                old(self).pending_states@
            },
            if old(self).save_is_confirmed() || old(self).save_is_declined() {
                final(self).same_around_editor(
                    App {
                        running: final(self).running,
                        pending_states: final(self).pending_states,
                        popup_result: PopupResult::Unanswered,
                        popup: None,
                        active_area: ActiveArea::Editor,
                        ..*old(self)
                    },
                )
            } else {
                final(self).same_around_editor(
                    App {
                        running: final(self).running,
                        pending_states: final(self).pending_states,
                        ..*old(self)
                    },
                )
            },
    {
        if self.pending_states.len() == 0 {
            return None;
        }
        match &self.pending_states[0] {
            PendingState::Saving(save_path) => {
                if self.popup_result == PopupResult::Bool(true) {
                    let target = SaveTarget {
                        path: save_path.clone(),
                        is_current_file: false,
                        force: false,
                        may_ask: false,
                    };
                    self.popup_result = PopupResult::Unanswered;
                    self.close_popup();
                    self.pending_states.remove(0);
                    let quits = self.pending_states.len() > 0 && match &self.pending_states[0] {
                        PendingState::Quitting => true,
                        _ => false,
                    };
                    if quits {
                        self.pending_states.clear();
                        self.quit();
                    }
                    Some(target)
                } else if self.popup_result == PopupResult::Bool(false) {
                    self.popup_result = PopupResult::Unanswered;
                    self.close_popup();
                    None
                } else {
                    None
                }
            },
            PendingState::Quitting => {
                self.pending_states.clear();
                self.quit();
                None
            },
            _ => None,
        }
    }
}

} // verus!
