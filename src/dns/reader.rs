use vstd::prelude::*;
use vstd::slice::{slice_subrange, slice_to_vec};

use crate::dns::error::{Error, ErrorKind};
use crate::dns::text::utf8_string;
use crate::dns::wire::{
    be16, be32, join_label, name_at, name_bytes_at, string_at, strings_at, DOT, MAX_POINTERS,
};

verus! {

/// A cursor over the bytes of a DNS message.
pub struct Reader<'a> {
    buffer: &'a [u8],
    cursor: usize,
}

/// Decodes the name at `pos` of `buf` into its dot-joined label bytes; see
/// `name_bytes_at`.
fn read_name_bytes(buf: &[u8], pos: usize, fuel: u32) -> (r: Result<(Vec<u8>, usize), Error>)
    ensures
        match r {
            Ok((b, end)) => name_bytes_at(buf@, pos as int, fuel as nat) == Ok::<(Seq<u8>, int), ErrorKind>((b@, end as int))
                && end <= buf@.len(),
            Err(e) => name_bytes_at(buf@, pos as int, fuel as nat) == Err::<(Seq<u8>, int), ErrorKind>(e.kind),
        },
    decreases fuel, buf@.len() - pos,
{
    if pos >= buf.len() {
        return Err(Error::from_bytes(buf, pos));
    }
    let n = buf[pos];
    if n == 0 {
        return Ok((Vec::new(), pos + 1));
    }
    if n >= 0xc0 {
        if buf.len() - pos < 2 {
            return Err(Error::from_bytes(buf, pos));
        }
        if fuel == 0 {
            return Err(Error::with_kind(ErrorKind::MalformedName, buf, pos));
        }
        let target = ((n - 0xc0) as usize) * 256 + buf[pos + 1] as usize;
        return match read_name_bytes(buf, target, fuel - 1) {
            Ok((b, _)) => Ok((b, pos + 2)),
            Err(e) => Err(e),
        };
    }
    if n >= 0x40 {
        return Err(Error::with_kind(ErrorKind::MalformedName, buf, pos));
    }
    let len = n as usize;
    if buf.len() - pos - 1 < len {
        return Err(Error::from_bytes(buf, pos));
    }
    match read_name_bytes(buf, pos + 1 + len, fuel) {
        Ok((rest, end)) => {
            let mut label = slice_to_vec(slice_subrange(buf, pos + 1, pos + 1 + len));
            let ghost first = label@;
            if rest.len() > 0 {
                let mut rest = rest;
                let ghost tail = rest@;
                label.push(DOT);
                label.append(&mut rest);
                assert(label@ =~= first + seq![DOT] + tail);
            }
            assert(label@ == join_label(buf@.subrange(pos + 1, pos + 1 + len), rest@));
            Ok((label, end))
        },
        Err(e) => Err(e),
    }
}

impl<'a> Reader<'a> {
    /// The bytes being read.
    pub closed spec fn buf(&self) -> Seq<u8> {
        self.buffer@
    }

    /// The offset of the next read.
    pub closed spec fn pos(&self) -> int {
        self.cursor as int
    }

    /// new creates a new reader at the start of the specified bytes.
    pub fn new(msg_bytes: &'a [u8]) -> (r: Reader<'a>)
        ensures
            r.buf() == msg_bytes@,
            r.pos() == 0,
    {
        Reader { buffer: msg_bytes, cursor: 0 }
    }

    /// from_bytes creates a new reader at the start of the specified bytes.
    pub fn from_bytes(msg_bytes: &'a [u8]) -> (r: Reader<'a>)
        ensures
            r.buf() == msg_bytes@,
            r.pos() == 0,
    {
        Reader { buffer: msg_bytes, cursor: 0 }
    }

    /// set_offset moves the cursor.
    pub fn set_offset(&mut self, offset: usize)
        ensures
            final(self).buf() == old(self).buf(),
            final(self).pos() == offset,
    {
        self.cursor = offset;
    }

    /// buffer returns the bytes being read.
    pub fn buffer(&self) -> (r: &'a [u8])
        ensures
            r@ == self.buf(),
    {
        self.buffer
    }

    /// offset returns the offset of the next read.
    pub fn offset(&self) -> (r: usize)
        ensures
            r == self.pos(),
    {
        self.cursor
    }

    /// read_u8 reads the next byte.
    pub fn read_u8(&mut self) -> (r: Result<u8, Error>)
        ensures
            final(self).buf() == old(self).buf(),
            r is Ok <==> old(self).pos() + 1 <= old(self).buf().len(),
            r matches Ok(v) ==> v == old(self).buf()[old(self).pos()] && final(self).pos()
                == old(self).pos() + 1,
            r matches Err(e) ==> e.kind == ErrorKind::ShortBuffer && final(self).pos() == old(
                self,
            ).pos(),
            r is Ok ==> final(self).pos() <= final(self).buf().len(),
    {
        if self.cursor >= self.buffer.len() {
            return Err(Error::from_bytes(self.buffer, self.cursor));
        }
        let v = self.buffer[self.cursor];
        self.cursor = self.cursor + 1;
        Ok(v)
    }

    /// read_u16 reads the next big-endian 16-bit integer.
    pub fn read_u16(&mut self) -> (r: Result<u16, Error>)
        ensures
            final(self).buf() == old(self).buf(),
            r is Ok <==> old(self).pos() + 2 <= old(self).buf().len(),
            r matches Ok(v) ==> v == be16(old(self).buf(), old(self).pos()) && final(self).pos()
                == old(self).pos() + 2,
            r matches Err(e) ==> e.kind == ErrorKind::ShortBuffer && final(self).pos() == old(
                self,
            ).pos(),
            r is Ok ==> final(self).pos() <= final(self).buf().len(),
    {
        if self.cursor >= self.buffer.len() || self.buffer.len() - self.cursor < 2 {
            return Err(Error::from_bytes(self.buffer, self.cursor));
        }
        let c = self.cursor;
        let v = (self.buffer[c] as u16) * 256 + self.buffer[c + 1] as u16;
        self.cursor = c + 2;
        Ok(v)
    }

    /// read_u32 reads the next big-endian 32-bit integer.
    pub fn read_u32(&mut self) -> (r: Result<u32, Error>)
        ensures
            final(self).buf() == old(self).buf(),
            r is Ok <==> old(self).pos() + 4 <= old(self).buf().len(),
            r matches Ok(v) ==> v == be32(old(self).buf(), old(self).pos()) && final(self).pos()
                == old(self).pos() + 4,
            r matches Err(e) ==> e.kind == ErrorKind::ShortBuffer && final(self).pos() == old(
                self,
            ).pos(),
            r is Ok ==> final(self).pos() <= final(self).buf().len(),
    {
        if self.cursor >= self.buffer.len() || self.buffer.len() - self.cursor < 4 {
            return Err(Error::from_bytes(self.buffer, self.cursor));
        }
        let c = self.cursor;
        let v = (((self.buffer[c] as u32) * 256 + self.buffer[c + 1] as u32) * 256
            + self.buffer[c + 2] as u32) * 256 + self.buffer[c + 3] as u32;
        self.cursor = c + 4;
        Ok(v)
    }

    /// read_bytes fills `buf` with the next bytes.
    pub fn read_bytes(&mut self, buf: &mut [u8]) -> (r: Result<(), Error>)
        ensures
            final(self).buf() == old(self).buf(),
            r is Ok <==> old(self).pos() + old(buf)@.len() <= old(self).buf().len(),
            r is Ok ==> final(buf)@ == old(self).buf().subrange(
                old(self).pos(),
                old(self).pos() + old(buf)@.len(),
            ) && final(self).pos() == old(self).pos() + old(buf)@.len(),
            r matches Err(e) ==> e.kind == ErrorKind::ShortBuffer && final(self).pos() == old(
                self,
            ).pos() && final(buf)@ == old(buf)@,
            r is Ok ==> final(self).pos() <= final(self).buf().len(),
    {
        let n = buf.len();
        if self.cursor > self.buffer.len() || self.buffer.len() - self.cursor < n {
            return Err(Error::from_bytes(self.buffer, self.cursor));
        }
        let c = self.cursor;
        let data = self.buffer;
        let dlen = data.len();
        let mut i: usize = 0;
        while i < n
            invariant
                i <= n,
                n == buf@.len(),
                dlen == data@.len(),
                c + n <= dlen,
                forall|k: int| 0 <= k < i ==> buf@[k] == data@[c + k],
            decreases n - i,
        {
            buf[i] = data[c + i];
            i = i + 1;
        }
        assert(buf@ =~= data@.subrange(c as int, c + n));
        self.cursor = c + n;
        Ok(())
    }

    /// read_string_size reads the length octet of a character-string.
    pub fn read_string_size(&mut self) -> (r: Result<usize, Error>)
        ensures
            final(self).buf() == old(self).buf(),
            r is Ok <==> old(self).pos() + 1 <= old(self).buf().len(),
            r matches Ok(v) ==> v == old(self).buf()[old(self).pos()] && final(self).pos()
                == old(self).pos() + 1,
            r matches Err(e) ==> e.kind == ErrorKind::ShortBuffer && final(self).pos() == old(
                self,
            ).pos(),
            r is Ok ==> final(self).pos() <= final(self).buf().len(),
    {
        if self.cursor >= self.buffer.len() {
            return Err(Error::from_bytes(self.buffer, self.cursor));
        }
        let v = self.buffer[self.cursor] as usize;
        self.cursor = self.cursor + 1;
        Ok(v)
    }

    /// read_string reads the next length-prefixed character-string as UTF-8.
    pub fn read_string(&mut self) -> (r: Result<String, Error>)
        ensures
            final(self).buf() == old(self).buf(),
            r is Ok <==> string_at(old(self).buf(), old(self).pos()) is Ok,
            r matches Ok(s) ==> string_at(old(self).buf(), old(self).pos()) == Ok::<
                (Seq<char>, int),
                ErrorKind,
            >((s@, final(self).pos())),
            r matches Err(e) ==> string_at(old(self).buf(), old(self).pos()) == Err::<
                (Seq<char>, int),
                ErrorKind,
            >(e.kind) && final(self).pos() == old(self).pos(),
            r is Ok ==> final(self).pos() <= final(self).buf().len(),
    {
        match read_string_from(self.buffer, self.cursor) {
            Ok((s, next)) => {
                self.cursor = next;
                Ok(s)
            },
            Err(e) => Err(e),
        }
    }

    /// read_strings reads character-strings up to a zero length octet or the
    /// end of the bytes.
    pub fn read_strings(&mut self) -> (r: Result<Vec<String>, Error>)
        ensures
            final(self).buf() == old(self).buf(),
            r is Ok <==> strings_at(old(self).buf(), old(self).pos()) is Ok,
            r matches Ok(v) ==> strings_at(old(self).buf(), old(self).pos()) == Ok::<
                (Seq<Seq<char>>, int),
                ErrorKind,
            >((v@.map_values(|s: String| s@), final(self).pos())),
            r matches Err(e) ==> strings_at(old(self).buf(), old(self).pos()) == Err::<
                (Seq<Seq<char>>, int),
                ErrorKind,
            >(e.kind) && final(self).pos() == old(self).pos(),
            r is Ok ==> final(self).pos() <= final(self).buf().len(),
    {
        match read_strings_from(self.buffer, self.cursor) {
            Ok((v, next)) => {
                self.cursor = next;
                Ok(v)
            },
            Err(e) => Err(e),
        }
    }

    /// read_name reads the next domain name, following compression pointers
    /// into the whole buffer; the cursor moves past the name as it is stored
    /// here (past its first pointer, if any).
    pub fn read_name(&mut self) -> (r: Result<String, Error>)
        ensures
            final(self).buf() == old(self).buf(),
            r is Ok <==> name_at(old(self).buf(), old(self).pos()) is Ok,
            r matches Ok(s) ==> name_at(old(self).buf(), old(self).pos()) == Ok::<
                (Seq<char>, int),
                ErrorKind,
            >((s@, final(self).pos())),
            r matches Err(e) ==> name_at(old(self).buf(), old(self).pos()) == Err::<
                (Seq<char>, int),
                ErrorKind,
            >(e.kind) && final(self).pos() == old(self).pos(),
            r is Ok ==> final(self).pos() <= final(self).buf().len(),
    {
        match read_name_from(self.buffer, self.cursor) {
            Ok((s, next)) => {
                self.cursor = next;
                Ok(s)
            },
            Err(e) => Err(e),
        }
    }
}

/// Reads the name at `pos` of `buf`; see `name_at`.
pub(crate) fn read_name_from(buf: &[u8], pos: usize) -> (r: Result<(String, usize), Error>)
    ensures
        match r {
            Ok((s, end)) => name_at(buf@, pos as int) == Ok::<(Seq<char>, int), ErrorKind>((s@, end as int))
                && end <= buf@.len(),
            Err(e) => name_at(buf@, pos as int) == Err::<(Seq<char>, int), ErrorKind>(e.kind),
        },
{
    match read_name_bytes(buf, pos, MAX_POINTERS) {
        Ok((b, end)) => match utf8_string(b.as_slice()) {
            Some(s) => Ok((s, end)),
            None => Err(Error::with_kind(ErrorKind::MalformedName, buf, pos)),
        },
        Err(e) => Err(e),
    }
}

/// Reads the character-string at `pos` of `buf`; see `string_at`.
fn read_string_from(buf: &[u8], pos: usize) -> (r: Result<(String, usize), Error>)
    ensures
        match r {
            Ok((s, end)) => string_at(buf@, pos as int) == Ok::<(Seq<char>, int), ErrorKind>((s@, end as int))
                && end <= buf@.len(),
            Err(e) => string_at(buf@, pos as int) == Err::<(Seq<char>, int), ErrorKind>(e.kind),
        },
{
    if pos >= buf.len() {
        return Err(Error::from_bytes(buf, pos));
    }
    let len = buf[pos] as usize;
    if buf.len() - pos - 1 < len {
        return Err(Error::from_bytes(buf, pos));
    }
    match utf8_string(slice_subrange(buf, pos + 1, pos + 1 + len)) {
        Some(s) => Ok((s, pos + 1 + len)),
        None => Err(Error::with_kind(ErrorKind::MalformedRecord, buf, pos)),
    }
}

/// Reads the character-strings from `pos` of `buf`; see `strings_at`.
fn read_strings_from(buf: &[u8], pos: usize) -> (r: Result<(Vec<String>, usize), Error>)
    ensures
        match r {
            Ok((v, end)) => strings_at(buf@, pos as int) == Ok::<(Seq<Seq<char>>, int), ErrorKind>(
                (v@.map_values(|s: String| s@), end as int),
            ) && end <= buf@.len(),
            Err(e) => strings_at(buf@, pos as int) == Err::<(Seq<Seq<char>>, int), ErrorKind>(e.kind),
        },
    decreases buf@.len() - pos,
{
    if pos > buf.len() {
        return Err(Error::from_bytes(buf, pos));
    }
    if pos == buf.len() || buf[pos] == 0 {
        let v: Vec<String> = Vec::new();
        let end = if pos == buf.len() { pos } else { pos + 1 };
        assert(v@.map_values(|x: String| x@) =~= Seq::<Seq<char>>::empty());
        return Ok((v, end));
    }
    match read_string_from(buf, pos) {
        Ok((s, next)) => match read_strings_from(buf, next) {
            Ok((rest, end)) => {
                let ghost first = s@;
                let ghost tail = rest@.map_values(|x: String| x@);
                let mut v = rest;
                v.insert(0, s);
                assert(v@.map_values(|x: String| x@) =~= seq![first] + tail);
                Ok((v, end))
            },
            Err(e) => Err(e),
        },
        Err(e) => Err(e),
    }
}

} // verus!
