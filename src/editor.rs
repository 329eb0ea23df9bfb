use vstd::prelude::*;
use crate::buffer::{Buffer, BufferPath};

verus! {

/// A key code, as far as the editor tells keys apart.
pub enum KeyCode {
    Char(char),
    Backspace,
    Other,
}

/// One key press: its code, and whether Control was the one modifier held.
pub struct KeyPress {
    pub code: KeyCode,
    pub control: bool,
}

/// One event read from the terminal.
pub enum InputEvent {
    Key(KeyPress),
    Resize(u16, u16),
    Mouse,
    Other,
}

/// What the loop does after an event was interpreted.
#[derive(Debug, PartialEq, Eq, Structural)]
pub enum EditorEvent {
    /// The screen must be drawn again.
    Edited,
    /// The loop ends.
    Quit,
    /// Nothing to show; wait for the next event.
    Continue,
}

/// The interpretation of one event: whether the buffer must be written out
/// now, and what the loop does next.
pub struct Reaction {
    pub save: bool,
    pub event: EditorEvent,
}

/// An editor owning one buffer.
pub struct Editor {
    pub buffer: Buffer,
}

/// A file system, as a map from path to the bytes stored there.
pub type Disk = Map<Seq<char>, Seq<u8>>;

/// The bytes a save writes for this content: its UTF-8 encoding.
pub open spec fn file_bytes(content: Seq<char>) -> Seq<u8> {
    vstd::utf8::encode_utf8(content)
}

/// The content after appending one character.
pub open spec fn appended(content: Seq<char>, c: char) -> Seq<char> {
    content.push(c)
}

/// The content after removing the last character, if there is one.
pub open spec fn deleted_last(content: Seq<char>) -> Seq<char> {
    if content.len() == 0 {
        content
    } else {
        content.drop_last()
    }
}

impl Editor {
    /// The path a save writes to, if the buffer is backed by a file.
    pub open spec fn target(&self) -> Option<Seq<char>> {
        match self.buffer.path {
            BufferPath::File(p) => Some(p@),
            BufferPath::Temp(_) => None,
        }
    }

    /// The text held by the editor.
    pub open spec fn content(&self) -> Seq<char> {
        self.buffer.data@
    }

    /// The file system after a save of this editor.
    pub open spec fn saved_to(&self, disk: Disk) -> Disk {
        match self.target() {
            Some(p) => disk.insert(p, file_bytes(self.content())),
            None => disk,
        }
    }

    /// An editor owning `buffer`.
    pub fn new(buffer: Buffer) -> (r: Editor)
        ensures
            r.buffer == buffer,
    {
        Editor { buffer }
    }

    /// Inserts one character at the end of the buffer.
    pub fn insert_char(&mut self, c: char)
        ensures
            final(self).buffer.path == old(self).buffer.path,
            final(self).content() == appended(old(self).content(), c),
    {
        self.buffer.append_char(c);
    }

    /// Deletes the last character of the buffer, if there is one.
    pub fn delete_last_char(&mut self)
        ensures
            final(self).buffer.path == old(self).buffer.path,
            final(self).content() == deleted_last(old(self).content()),
    {
        self.buffer.delete_char_from_end();
    }

    /// What a save writes: the path and the bytes, or `None` when the buffer
    /// is not backed by a file and a save writes nothing.
    pub fn save_plan(&self) -> (r: Option<(&str, &[u8])>)
        ensures
            match (self.target(), r) {
                (Some(p), Some((path, bytes))) => path@ == p && bytes@ == file_bytes(self.content()),
                (None, None) => true,
                _ => false,
            },
    {
        match &self.buffer.path {
            BufferPath::File(p) => Some((p.as_str(), self.buffer.data.as_str().as_bytes())),
            BufferPath::Temp(_) => None,
        }
    }
}

/// The content after a key press and how the loop goes on. Control with `c`
/// ends the loop; Control with `s` asks for a save and a redraw; Backspace
/// deletes the last character; any other character is inserted; other keys
/// change nothing.
pub open spec fn key_outcome(content: Seq<char>, key: KeyPress) -> (Seq<char>, Reaction) {
    match key.code {
        KeyCode::Char(c) => if key.control && c == 'c' {
            (content, Reaction { save: false, event: EditorEvent::Quit })
        } else if key.control && c == 's' {
            (content, Reaction { save: true, event: EditorEvent::Edited })
        } else {
            (appended(content, c), Reaction { save: false, event: EditorEvent::Edited })
        },
        KeyCode::Backspace => (deleted_last(content), Reaction { save: false, event: EditorEvent::Edited }),
        KeyCode::Other => (content, Reaction { save: false, event: EditorEvent::Continue }),
    }
}

/// The content after a terminal event and how the loop goes on: key presses
/// as `key_outcome` says, every other event ignored.
pub open spec fn event_outcome(content: Seq<char>, event: InputEvent) -> (Seq<char>, Reaction) {
    match event {
        InputEvent::Key(key) => key_outcome(content, key),
        _ => (content, Reaction { save: false, event: EditorEvent::Continue }),
    }
}

impl Editor {
    /// Applies one key press to the buffer, as `key_outcome` says.
    pub fn match_keyevent(&mut self, key: KeyPress) -> (r: Reaction)
        ensures
            final(self).buffer.path == old(self).buffer.path,
            (final(self).content(), r) == key_outcome(old(self).content(), key),
    {
        match key.code {
            KeyCode::Char(c) => {
                if key.control && c == 'c' {
                    return Reaction { save: false, event: EditorEvent::Quit };
                } else if key.control && c == 's' {
                    return Reaction { save: true, event: EditorEvent::Edited };
                } else {
                    self.insert_char(c);
                }
            },
            KeyCode::Backspace => self.delete_last_char(),
            KeyCode::Other => {
                return Reaction { save: false, event: EditorEvent::Continue };
            },
        }
        Reaction { save: false, event: EditorEvent::Edited }
    }

    /// Applies one terminal event to the buffer, as `event_outcome` says.
    pub fn read_input(&mut self, event: InputEvent) -> (r: Reaction)
        ensures
            final(self).buffer.path == old(self).buffer.path,
            (final(self).content(), r) == event_outcome(old(self).content(), event),
    {
        match event {
            InputEvent::Key(key) => self.match_keyevent(key),
            _ => Reaction { save: false, event: EditorEvent::Continue },
        }
    }
}

} // verus!
