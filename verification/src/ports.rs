//! Labelling of enumerated USB serial ports.
//!
//! Port discovery itself is operating-system I/O and happens outside the
//! library; what is verified here is the labelling rule: a port with no USB
//! product string is labelled by its raw name; a product string that
//! already contains the port name stands alone; otherwise the port name is
//! prefixed onto the product string.

use vstd::prelude::*;

verus! {

/// One USB-attached serial port, as offered to the caller: the raw port
/// name to connect with, and a human-readable label.
#[derive(Debug, Clone, PartialEq, Eq)]
pub struct USBSerialPortInfo {
    /// The raw port name, handed back verbatim into a connection request.
    pub value: String,
    /// The human-readable label shown for this port.
    pub label: String,
}

/// The mathematical value of a port entry.
#[verifier::ext_equal]
pub struct USBSerialPortInfoV {
    pub value: Seq<char>,
    pub label: Seq<char>,
}

impl View for USBSerialPortInfo {
    type V = USBSerialPortInfoV;

    open spec fn view(&self) -> USBSerialPortInfoV {
        USBSerialPortInfoV { value: self.value@, label: self.label@ }
    }
}

/// The needle occurs in the haystack starting at position `i`.
pub open spec fn spec_contains_at(hay: Seq<char>, needle: Seq<char>, i: int) -> bool {
    &&& 0 <= i
    &&& i + needle.len() <= hay.len()
    &&& hay.subrange(i, i + needle.len() as int) == needle
}

/// The needle occurs somewhere in the haystack.
pub open spec fn spec_contains(hay: Seq<char>, needle: Seq<char>) -> bool {
    exists|i: int| spec_contains_at(hay, needle, i)
}

/// The labelling rule: the raw name without a product string; the product
/// string alone when it already names the port; the name prefixed onto the
/// product string otherwise.
pub open spec fn spec_usb_label(port_name: Seq<char>, product: Option<Seq<char>>) -> Seq<char> {
    match product {
        None => port_name,
        Some(p) => if spec_contains(p, port_name) {
            p
        } else {
            "("@ + port_name + ") - "@ + p
        },
    }
}

/// Whether the needle matches the haystack at position `i`.
fn match_at(hay: &str, needle: &str, i: usize, hay_len: usize, needle_len: usize) -> (r: bool)
    requires
        hay_len == hay@.len(),
        needle_len == needle@.len(),
        i + needle_len <= hay_len,
    ensures
        r == spec_contains_at(hay@, needle@, i as int),
{
    let mut k: usize = 0;
    while k < needle_len
        invariant
            hay_len == hay@.len(),
            needle_len == needle@.len(),
            i + needle_len <= hay_len,
            0 <= k <= needle_len,
            forall|j: int| 0 <= j < k ==> hay@[i + j] == needle@[j],
        decreases needle_len - k,
    {
        if hay.get_char(i + k) != needle.get_char(k) {
            assert(!spec_contains_at(hay@, needle@, i as int)) by {
                if hay@.subrange(i as int, i + needle@.len() as int) == needle@ {
                    assert(hay@.subrange(i as int, i + needle@.len() as int)[k as int]
                        == needle@[k as int]);
                }
            }
            return false;
        }
        k += 1;
    }
    assert(hay@.subrange(i as int, i + needle@.len() as int) =~= needle@);
    true
}

/// Substring search: whether the needle occurs anywhere in the haystack.
pub fn str_contains(hay: &str, needle: &str) -> (r: bool)
    ensures
        r == spec_contains(hay@, needle@),
{
    let hay_len = hay.unicode_len();
    let needle_len = needle.unicode_len();
    if needle_len == 0 {
        assert(spec_contains_at(hay@, needle@, 0)) by {
            assert(hay@.subrange(0, 0) =~= needle@);
        }
        return true;
    }
    if needle_len > hay_len {
        assert(!spec_contains(hay@, needle@)) by {
            assert(forall|i: int| !spec_contains_at(hay@, needle@, i));
        }
        return false;
    }
    let mut i: usize = 0;
    loop
        invariant
            hay_len == hay@.len(),
            needle_len == needle@.len(),
            1 <= needle_len <= hay_len,
            0 <= i <= hay_len - needle_len + 1,
            forall|k: int| 0 <= k < i ==> !spec_contains_at(hay@, needle@, k),
        decreases hay_len - needle_len + 1 - i,
    {
        if i > hay_len - needle_len {
            assert(!spec_contains(hay@, needle@)) by {
                assert(forall|k: int| k >= i ==> !spec_contains_at(hay@, needle@, k));
            }
            return false;
        }
        if match_at(hay, needle, i, hay_len, needle_len) {
            return true;
        }
        i += 1;
    }
}

/// Renders the label for a port under the labelling rule.
pub fn usb_port_label(port_name: &str, product: Option<&str>) -> (r: String)
    ensures
        r@ == spec_usb_label(port_name@, match product {
            Some(p) => Some(p@),
            None => None,
        }),
{
    match product {
        None => String::from_str(port_name),
        Some(p) => {
            if str_contains(p, port_name) {
                String::from_str(p)
            } else {
                let mut out = String::from_str("(");
                out.append(port_name);
                out.append(") - ");
                out.append(p);
                out
            }
        },
    }
}

impl USBSerialPortInfo {
    /// Builds one port entry from the enumerated name and the USB product
    /// string, if any.
    pub fn new(port_name: String, product: Option<&str>) -> (r: USBSerialPortInfo)
        ensures
            r@.value == port_name@,
            r@.label == spec_usb_label(port_name@, match product {
                Some(p) => Some(p@),
                None => None,
            }),
    {
        let label = usb_port_label(port_name.as_str(), product);
        USBSerialPortInfo { value: port_name, label }
    }
}

} // verus!
