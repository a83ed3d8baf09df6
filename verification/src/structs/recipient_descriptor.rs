//! The safe form of one recipient record.

use vstd::prelude::*;

verus! {

/// The address with a leading `SMTP:` transport prefix removed; any other
/// address, including one in quoted form, stays as it is.
pub open spec fn stripped_address_chars(a: Seq<char>) -> Seq<char> {
    if a.len() >= 5 && a.subrange(0, 5) == "SMTP:"@ {
        a.subrange(5, a.len() as int)
    } else {
        a
    }
}

/// An address in quoted form is never rewritten: it begins with `"`, so it
/// cannot carry the transport prefix.
pub proof fn lemma_quoted_address_kept(a: Seq<char>)
    requires
        a.len() > 0,
        a[0] == '"',
    ensures
        stripped_address_chars(a) == a,
{
    reveal_strlit("SMTP:");
    if a.len() >= 5 && a.subrange(0, 5) == "SMTP:"@ {
        assert(a.subrange(0, 5)[0] == a[0]);
        assert(false);
    }
}

/// Strip the `SMTP:` transport prefix that some mail applications put in
/// front of a recipient address. `:` is only valid inside a quoted local
/// part, and a quoted local part begins with `"`, so no valid address is
/// damaged by this.
pub fn strip_smtp_prefix(address: String) -> (r: String)
    ensures
        r@ == stripped_address_chars(address@),
{
    let n = address.as_str().unicode_len();
    if n >= 5 {
        let head = address.as_str().substring_char(0, 5);
        if head.get_char(0) == 'S' && head.get_char(1) == 'M' && head.get_char(2) == 'T'
            && head.get_char(3) == 'P' && head.get_char(4) == ':' {
            proof {
                reveal_strlit("SMTP:");
                assert(head@ =~= "SMTP:"@);
            }
            let rest = address.as_str().substring_char(5, n);
            return rest.to_owned();
        }
        proof {
            reveal_strlit("SMTP:");
            assert(head@ != "SMTP:"@);
        }
        return address;
    }
    address
}

/// One recipient, with owned, sanitized fields.
pub struct RecipientDescriptor {
    pub recip_class: u32,
    pub name: String,
    pub address: Option<String>,
    pub entry_id: Vec<u8>,
}

impl RecipientDescriptor {
    /// Build a recipient from the already-copied record fields: the name
    /// falls back to a sentinel when it could not be read, and the address
    /// loses a leading `SMTP:` transport prefix.
    pub fn from_parts(
        recip_class: u32,
        name: Option<String>,
        address: Option<String>,
        entry_id: Vec<u8>,
    ) -> (r: RecipientDescriptor)
        ensures
            r.recip_class == recip_class,
            match name {
                Some(n) => r.name@ == n@,
                None => r.name@ == "MISSING_RECIP_NAME"@,
            },
            match address {
                Some(a) => r.address matches Some(s) && s@ == stripped_address_chars(a@),
                None => r.address is None,
            },
            r.entry_id@ == entry_id@,
    {
        let name = match name {
            Some(n) => n,
            None => String::from_str("MISSING_RECIP_NAME"),
        };
        let address = match address {
            Some(a) => Some(strip_smtp_prefix(a)),
            None => None,
        };
        RecipientDescriptor { recip_class, name, address, entry_id }
    }

    /// A plain recipient that carries only an address.
    pub fn new(address: &str) -> (r: RecipientDescriptor)
        ensures
            r.recip_class == 0,
            r.name@ == Seq::<char>::empty(),
            r.address matches Some(a) && a@ == address@,
            r.entry_id@ == seq![0u8, 0u8, 0u8, 0u8],
    {
        let mut entry_id: Vec<u8> = Vec::new();
        entry_id.push(0);
        entry_id.push(0);
        entry_id.push(0);
        entry_id.push(0);
        proof {
            assert(entry_id@ =~= seq![0u8, 0u8, 0u8, 0u8]);
        }
        RecipientDescriptor {
            recip_class: 0,
            name: String::new(),
            address: Some(address.to_owned()),
            entry_id,
        }
    }
}

} // verus!
