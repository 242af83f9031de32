use vstd::prelude::*;
use vstd::string::*;
use crate::error::Error;

verus! {

/// A device reached through the vendor's debug bridge, known by its serial.
#[derive(Debug)]
pub struct AndroidDevice {
    id: String,
}

impl View for AndroidDevice {
    type V = Seq<char>;

    closed spec fn view(&self) -> Seq<char> {
        self.id@
    }
}

impl AndroidDevice {
    /// The device with the given serial.
    pub fn from_id(id: &str) -> (r: Result<AndroidDevice, Error>)
        ensures
            r matches Ok(d) && d@ == id@,
    {
        Ok(AndroidDevice { id: String::from_str(id) })
    }

    /// The display name of every such device.
    pub fn name(&self) -> (s: &'static str)
        ensures
            s@ == "i'm a droid"@,
    {
        "i'm a droid"
    }

    /// The device's serial.
    pub fn id(&self) -> (s: &str)
        ensures
            s@ == self@,
    {
        self.id.as_str()
    }

    /// The target architecture of every such device.
    pub fn target_arch(&self) -> (s: &'static str)
        ensures
            s@ == "arm"@,
    {
        "arm"
    }

    /// The target vendor of every such device.
    pub fn target_vendor(&self) -> (s: &'static str)
        ensures
            s@ == "linux"@,
    {
        "linux"
    }

    /// The target OS of every such device.
    pub fn target_os(&self) -> (s: &'static str)
        ensures
            s@ == "androideabi"@,
    {
        "androideabi"
    }

    /// The application to install for a build: the built bundle itself.
    pub fn make_app(&self, app: &str, _target: Option<&str>) -> (r: Result<String, Error>)
        ensures
            r matches Ok(p) && p@ == app@,
    {
        Ok(String::from_str(app))
    }
}

/// The lines of a text, split at each newline; the text after the last
/// newline is the last line. Scans from position `i`, the current line
/// starting at `start`, with the lines before it in `acc`.
pub open spec fn split_from(s: Seq<char>, i: int, start: int, acc: Seq<Seq<char>>) -> Seq<
    Seq<char>,
>
    decreases s.len() - i,
{
    if i >= s.len() {
        acc.push(s.subrange(start, s.len() as int))
    } else if s[i] == '\n' {
        split_from(s, i + 1, i + 1, acc.push(s.subrange(start, i)))
    } else {
        split_from(s, i + 1, start, acc)
    }
}

/// The newline-separated lines of a text.
pub open spec fn lines(s: Seq<char>) -> Seq<Seq<char>> {
    split_from(s, 0, 0, Seq::empty())
}

/// Whether `c` is a lowercase hexadecimal digit.
pub open spec fn is_hex(c: char) -> bool {
    ('0' <= c && c <= '9') || ('a' <= c && c <= 'f')
}

/// The state word that follows a ready device's serial.
pub open spec fn device_suffix() -> Seq<char> {
    seq!['\t', 'd', 'e', 'v', 'i', 'c', 'e']
}

/// The serial that a line of the device listing names, if the line is a
/// non-empty lowercase hexadecimal serial, a tab, and the state "device".
pub open spec fn listed_serial(line: Seq<char>) -> Option<Seq<char>> {
    let n = line.len() - 7;
    if n >= 1 && line.subrange(n, line.len() as int) == device_suffix() && forall|j: int|
        0 <= j < n ==> is_hex(#[trigger] line[j]) {
        Some(line.take(n))
    } else {
        None
    }
}

/// The serials named by lines `1 .. k` of a listing (its first line is a header).
pub open spec fn serials_upto(ls: Seq<Seq<char>>, k: int) -> Seq<Seq<char>>
    decreases k,
{
    if k <= 1 {
        Seq::empty()
    } else {
        let before = serials_upto(ls, k - 1);
        match listed_serial(ls[k - 1]) {
            Some(id) => before.push(id),
            None => before,
        }
    }
}

/// Splits a text into its newline-separated lines.
pub fn split_lines(s: &str) -> (r: Vec<String>)
    ensures
        r@.map_values(|l: String| l@) == lines(s@),
        r@.len() >= 1,
{
    let n = s.unicode_len();
    let mut r: Vec<String> = Vec::new();
    assert(r@.map_values(|l: String| l@) =~= Seq::<Seq<char>>::empty());
    let mut start: usize = 0;
    let mut i: usize = 0;
    while i < n
        invariant
            n == s@.len(),
            0 <= start <= i <= n,
            split_from(s@, i as int, start as int, r@.map_values(|l: String| l@)) == lines(s@),
        decreases n - i,
    {
        if s.get_char(i) == '\n' {
            let line = String::from_str(s.substring_char(start, i));
            let ghost acc = r@.map_values(|l: String| l@);
            r.push(line);
            assert(r@.map_values(|l: String| l@) =~= acc.push(s@.subrange(start as int, i as int)));
            start = i + 1;
        }
        i = i + 1;
    }
    let line = String::from_str(s.substring_char(start, n));
    let ghost acc = r@.map_values(|l: String| l@);
    r.push(line);
    assert(r@.map_values(|l: String| l@) =~= acc.push(s@.subrange(start as int, n as int)));
    r
}

/// The serial a line of the device listing names, if any.
pub fn serial_of_line(line: &str) -> (r: Option<String>)
    ensures
        match listed_serial(line@) {
            Some(id) => r matches Some(t) && t@ == id,
            None => r is None,
        },
{
    let len = line.unicode_len();
    if len < 8 {
        return None;
    }
    let n = len - 7;
    let suffix = "\tdevice";
    proof {
        reveal_strlit("\tdevice");
    }
    assert(suffix@ =~= device_suffix());
    let mut k: usize = 0;
    while k < 7
        invariant
            len == line@.len(),
            n == len - 7,
            suffix@ == device_suffix(),
            0 <= k <= 7,
            forall|j: int| 0 <= j < k ==> line@[n + j] == device_suffix()[j],
        decreases 7 - k,
    {
        if line.get_char(n + k) != suffix.get_char(k) {
            assert(line@.subrange(n as int, len as int)[k as int] != device_suffix()[k as int]);
            return None;
        }
        k = k + 1;
    }
    assert(line@.subrange(n as int, len as int) =~= device_suffix());
    let mut j: usize = 0;
    while j < n
        invariant
            len == line@.len(),
            n == len - 7,
            0 <= j <= n,
            forall|m: int| 0 <= m < j ==> is_hex(#[trigger] line@[m]),
        decreases n - j,
    {
        let c = line.get_char(j);
        if !(('0' <= c && c <= '9') || ('a' <= c && c <= 'f')) {
            assert(!is_hex(line@[j as int]));
            return None;
        }
        j = j + 1;
    }
    Some(String::from_str(line.substring_char(0, n)))
}

/// The devices of the bridge's device listing: the header line is skipped and
/// each following line that names a ready device gives one device, in order.
pub open spec fn listed_devices(output: Seq<char>) -> Seq<Seq<char>> {
    serials_upto(lines(output), lines(output).len() as int)
}

/// Registry of devices reached through the vendor's debug bridge.
pub struct AndroidManager {}

impl Default for AndroidManager {
    fn default() -> (m: AndroidManager) {
        AndroidManager {  }
    }
}

impl AndroidManager {
    /// The devices that the bridge's device listing `output` names.
    pub fn devices_from_listing(&self, output: &str) -> (r: Vec<AndroidDevice>)
        ensures
            r@.map_values(|d: AndroidDevice| d@) == listed_devices(output@),
    {
        let ls = split_lines(output);
        let ghost lv = ls@.map_values(|l: String| l@);
        assert(lv.len() == ls@.len());
        let mut r: Vec<AndroidDevice> = Vec::new();
        assert(r@.map_values(|d: AndroidDevice| d@) =~= Seq::<Seq<char>>::empty());
        let mut k: usize = 1;
        while k < ls.len()
            invariant
                lv == ls@.map_values(|l: String| l@),
                lv == lines(output@),
                1 <= k,
                k <= ls@.len(),
                r@.map_values(|d: AndroidDevice| d@) == serials_upto(lv, k as int),
            decreases ls@.len() - k,
        {
            let ghost before = r@.map_values(|d: AndroidDevice| d@);
            assert(lv[k as int] == ls@[k as int]@);
            match serial_of_line(ls[k].as_str()) {
                Some(id) => {
                    r.push(AndroidDevice { id });
                    assert(r@.map_values(|d: AndroidDevice| d@) =~= before.push(
                        listed_serial(lv[k as int])->0,
                    ));
                },
                None => {},
            }
            k = k + 1;
        }
        r
    }
}

} // verus!
