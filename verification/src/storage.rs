//! Where the tally of remote addresses is kept: something that can be
//! read as text and overwritten with bytes.

use crate::text::string_from_utf8;
use vstd::prelude::*;
use vstd::utf8::{decode_utf8, valid_utf8};

verus! {

/// `std::io::Error`: the failure of a read or a write. Nothing is known
/// of what is inside.
#[verifier::external_type_specification]
#[verifier::external_body]
pub struct ExIoError(std::io::Error);

/// Something whose whole content can be replaced.
pub trait Overwrite {
    fn overwrite(&mut self, data: &[u8]) -> Result<(), std::io::Error>;
}

/// Something whose whole content can be read as text.
pub trait Readable {
    /// Whether the content is text, so that it can be read. This holds
    /// unless an implementation says otherwise.
    open spec fn holds_text(&self) -> bool {
        true
    }

    fn read_as_str(&mut self) -> String
        requires
            old(self).holds_text(),
    ;
}

impl Overwrite for Vec<u8> {
    /// Afterwards the vector holds exactly `data`. This never fails.
    fn overwrite(&mut self, data: &[u8]) -> (res: Result<(), std::io::Error>)
        ensures
            res is Ok,
            final(self)@ == data@,
    {
        self.clear();
        self.resize(data.len(), 0);
        let mut index: usize = 0;
        while index < data.len()
            invariant
                index <= data.len(),
                self.len() == data.len(),
                forall|i: int| 0 <= i < index ==> self@[i] == data@[i],
            decreases data.len() - index,
        {
            self.set(index, data[index]);
            index += 1;
        }
        assert(self@ =~= data@);
        Ok(())
    }
}

impl Readable for Vec<u8> {
    open spec fn holds_text(&self) -> bool {
        valid_utf8(self@)
    }

    /// The bytes, decoded; they stay as they are.
    fn read_as_str(&mut self) -> (text: String)
        ensures
            text@ == decode_utf8(old(self)@),
            final(self)@ == old(self)@,
    {
        string_from_utf8(self.clone()).unwrap()
    }
}

} // verus!
