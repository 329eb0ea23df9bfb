use vstd::prelude::*;

verus! {

/// Where a buffer's text comes from and where a save sends it.
pub enum BufferPath {
    /// Backed by the file at this path.
    File(String),
    /// Not backed by any file; the number is an opaque slot.
    Temp(usize),
}

/// Relies on `String::push`: the character is added at the end.
#[verifier::external_body]
fn push_char(s: &mut String, c: char)
    ensures
        final(s)@ == old(s)@.push(c),
{
    s.push(c)
}

/// Relies on `String::pop`: the last character is removed and returned,
/// or `None` when the string is empty.
#[verifier::external_body]
fn pop_char(s: &mut String) -> (r: Option<char>)
    ensures
        old(s)@.len() == 0 ==> r is None && final(s)@ == old(s)@,
        old(s)@.len() > 0 ==> r == Some(old(s)@.last()) && final(s)@ == old(s)@.drop_last(),
{
    s.pop()
}

/// The text of a buffer together with where it comes from.
pub struct Buffer {
    pub path: BufferPath,
    pub data: String,
}

impl Buffer {
    /// A buffer holding `data`, backed as `path` says.
    pub fn new(path: BufferPath, data: String) -> (r: Buffer)
        ensures
            r.path == path,
            r.data@ == data@,
    {
        Buffer { path, data }
    }

    /// The buffer an editing session starts with. Without a path it is empty
    /// and backed by no file. With a path it is backed by that file and holds
    /// the text read from it, or nothing where the file could not be read.
    pub fn open(path: Option<String>, text: Option<String>) -> (r: Buffer)
        ensures
            match path {
                Some(p) => r.path == BufferPath::File(p) && r.data@ == match text {
                    Some(t) => t@,
                    None => Seq::<char>::empty(),
                },
                None => r.path == BufferPath::Temp(0) && r.data@ == Seq::<char>::empty(),
            },
    {
        match path {
            Some(p) => {
                let data = match text {
                    Some(t) => t,
                    None => String::new(),
                };
                Buffer::new(BufferPath::File(p), data)
            },
            None => Buffer::new(BufferPath::Temp(0), String::new()),
        }
    }

    /// Adds one character at the end of the text.
    pub fn append_char(&mut self, c: char)
        ensures
            final(self).path == old(self).path,
            final(self).data@ == old(self).data@.push(c),
    {
        push_char(&mut self.data, c);
    }

    /// Removes the last character of the text; does nothing on empty text.
    pub fn delete_char_from_end(&mut self)
        ensures
            final(self).path == old(self).path,
            final(self).data@ == if old(self).data@.len() == 0 {
                old(self).data@
            } else {
                old(self).data@.drop_last()
            },
    {
        if !self.data.as_str().is_empty() {
            let _ = pop_char(&mut self.data);
        }
    }
}

} // verus!
