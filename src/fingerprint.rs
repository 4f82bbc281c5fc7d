//! The device fingerprint and the login service's user-agent string.
//!
//! The fingerprint is a pure function of a snapshot of the machine: its name,
//! the user's name and the number of logical processors.

use vstd::prelude::*;
use vstd::utf8::encode_utf8;
use crate::digest::{hex_digit_lower, hex_lower, sha1_digest, sha1_of, to_hex};
use crate::text::{decimal, digit_char, push_decimal};

verus! {

broadcast use vstd::string::group_string_axioms;

/// What the fingerprint is computed from.
pub struct MachineInfo {
    pub machine_name: String,
    pub user_name: String,
    pub processor_count: usize,
}

/// The machine name used when the environment gives none.
pub open spec fn unknown_machine() -> Seq<char> {
    "unknown"@
}

/// The operating-system label that goes into every fingerprint.
pub open spec fn os_label() -> Seq<char> {
    "Windows 10.0"@
}

/// The text whose digest the fingerprint is taken from.
pub open spec fn fingerprint_source(name: Seq<char>, user: Seq<char>, count: nat) -> Seq<char> {
    name + user + os_label() + decimal(count)
}

/// The checksum byte: the complement of the wrapped sum of the four payload
/// bytes.
pub open spec fn checksum_of(a: u8, b: u8, c: u8, d: u8) -> u8 {
    !(((a + b + c + d) % 256) as u8)
}

/// The five fingerprint bytes for a digest: the checksum, then the digest's
/// first four bytes.
pub open spec fn fingerprint_bytes(digest: Seq<u8>) -> Seq<u8> {
    seq![
        checksum_of(digest[0], digest[1], digest[2], digest[3]),
        digest[0],
        digest[1],
        digest[2],
        digest[3],
    ]
}

/// The fingerprint of a machine snapshot, in lowercase hexadecimal.
pub open spec fn computer_id_of(name: Seq<char>, user: Seq<char>, count: nat) -> Seq<char> {
    hex_lower(fingerprint_bytes(sha1_of(encode_utf8(fingerprint_source(name, user, count)))))
}

/// The user-agent template with a computer id filled in.
pub open spec fn user_agent_of(computer_id: Seq<char>) -> Seq<char> {
    "SQEXAuthor/2.0.0(Windows 6.2; ja-jp; "@ + computer_id + ")"@
}

impl MachineInfo {
    /// The fingerprint of this snapshot.
    pub open spec fn computer_id(&self) -> Seq<char> {
        computer_id_of(self.machine_name@, self.user_name@, self.processor_count as nat)
    }
}

/// Relies on `num_cpus::get`: the number of logical processors, which its
/// documentation says is always at least 1.
#[verifier::external_body]
fn logical_processor_count() -> (r: usize)
    ensures
        r >= 1,
{
    num_cpus::get()
}

/// A snapshot of this machine, from the machine and user names that the
/// environment gives (if any) and the number of logical processors.
pub fn machine_info(computer_name: Option<String>, user_name: Option<String>) -> (r: MachineInfo)
    ensures
        r.machine_name@ == match computer_name {
            Some(n) => n@,
            None => unknown_machine(),
        },
        r.user_name@ == match user_name {
            Some(u) => u@,
            None => Seq::<char>::empty(),
        },
        r.processor_count >= 1,
{
    let machine_name = match computer_name {
        Some(n) => n,
        None => String::from_str("unknown"),
    };
    let user_name = match user_name {
        Some(u) => u,
        None => String::new(),
    };
    MachineInfo { machine_name, user_name, processor_count: logical_processor_count() }
}

/// The five fingerprint bytes for a digest of at least four bytes.
pub fn fingerprint_from_digest(digest: &[u8]) -> (r: Vec<u8>)
    requires
        digest@.len() >= 4,
    ensures
        r@ == fingerprint_bytes(digest@),
{
    let sum: u32 = digest[0] as u32 + digest[1] as u32 + digest[2] as u32 + digest[3] as u32;
    let checksum: u8 = !((sum % 256) as u8);
    let r = vec![checksum, digest[0], digest[1], digest[2], digest[3]];
    assert(r@ =~= fingerprint_bytes(digest@));
    r
}

/// The device fingerprint: the checksum byte and the first four bytes of the
/// SHA-1 digest of name, user, OS label and processor count, in lowercase
/// hexadecimal.
pub fn make_computer_id(machine: &MachineInfo) -> (r: String)
    ensures
        r@ == machine.computer_id(),
{
    let mut source = machine.machine_name.clone();
    source.append(machine.user_name.as_str());
    source.append("Windows 10.0");
    push_decimal(&mut source, machine.processor_count as u128);
    assert(source@ =~= fingerprint_source(
        machine.machine_name@,
        machine.user_name@,
        machine.processor_count as nat,
    ));
    let digest = sha1_digest(source.as_str().as_bytes());
    let bytes = fingerprint_from_digest(digest.as_slice());
    to_hex(bytes.as_slice())
}

/// The user-agent string that carries `computer_id`.
pub fn generate_user_agent(computer_id: &str) -> (r: String)
    ensures
        r@ == user_agent_of(computer_id@),
{
    let mut r = String::from_str("SQEXAuthor/2.0.0(Windows 6.2; ja-jp; ");
    r.append(computer_id);
    r.append(")");
    r
}

/// The user-agent string for a machine snapshot, sent with every request to
/// the login service.
pub fn get_user_agent(machine: &MachineInfo) -> (r: String)
    ensures
        r@ == user_agent_of(machine.computer_id()),
{
    let id = make_computer_id(machine);
    generate_user_agent(id.as_str())
}

proof fn lemma_hex_lower_len(b: Seq<u8>)
    ensures
        hex_lower(b).len() == 2 * b.len(),
        forall|i: int| 0 <= i < hex_lower(b).len() ==> is_lower_hex_digit(#[trigger] hex_lower(b)[i]),
    decreases b.len(),
{
    if b.len() > 0 {
        lemma_hex_lower_len(b.drop_first());
        let head = seq![hex_digit_lower(b[0] as int / 16), hex_digit_lower(b[0] as int % 16)];
        assert(hex_lower(b) == head + hex_lower(b.drop_first()));
        assert forall|i: int| 0 <= i < hex_lower(b).len() implies is_lower_hex_digit(
            #[trigger] hex_lower(b)[i],
        ) by {
            if i >= 2 {
                assert(hex_lower(b)[i] == hex_lower(b.drop_first())[i - 2]);
            }
        }
    }
}

/// Whether `c` is one of `0-9a-f`.
pub open spec fn is_lower_hex_digit(c: char) -> bool {
    ('0' <= c && c <= '9') || ('a' <= c && c <= 'f')
}

/// The fingerprint is a function of the snapshot: equal snapshots give equal
/// fingerprints, and every fingerprint is ten lowercase hexadecimal digits.
pub proof fn lemma_fingerprint_deterministic(a: &MachineInfo, b: &MachineInfo)
    requires
        a.machine_name@ == b.machine_name@,
        a.user_name@ == b.user_name@,
        a.processor_count == b.processor_count,
    ensures
        a.computer_id() == b.computer_id(),
        a.computer_id().len() == 10,
        forall|i: int| 0 <= i < 10 ==> is_lower_hex_digit(#[trigger] a.computer_id()[i]),
{
    let digest = sha1_of(
        encode_utf8(
            fingerprint_source(a.machine_name@, a.user_name@, a.processor_count as nat),
        ),
    );
    lemma_hex_lower_len(fingerprint_bytes(digest));
}

/// The first fingerprint byte is the complement of the wrapped sum of the
/// other four: 255 minus that sum taken modulo 256.
pub proof fn lemma_checksum(digest: Seq<u8>)
    ensures
        fingerprint_bytes(digest).len() == 5,
        fingerprint_bytes(digest)[0] as int == 255 - (fingerprint_bytes(digest)[1] as int
            + fingerprint_bytes(digest)[2] as int + fingerprint_bytes(digest)[3] as int
            + fingerprint_bytes(digest)[4] as int) % 256,
{
    let f = fingerprint_bytes(digest);
    let s = ((f[1] as int + f[2] as int + f[3] as int + f[4] as int) % 256) as u8;
    assert(!s == 255 - s) by (bit_vector);
}

proof fn lemma_hex_digit_lower_injective(a: int, b: int)
    requires
        0 <= a < 16,
        0 <= b < 16,
        hex_digit_lower(a) == hex_digit_lower(b),
    ensures
        a == b,
{
    let d = seq!['0', '1', '2', '3', '4', '5', '6', '7', '8', '9', 'a', 'b', 'c', 'd', 'e', 'f'];
    assert(forall|i: int, j: int| 0 <= i < 16 && 0 <= j < 16 && i != j ==> d[i] != d[j]);
}

proof fn lemma_hex_lower_injective(x: Seq<u8>, y: Seq<u8>)
    requires
        x.len() == y.len(),
        hex_lower(x) == hex_lower(y),
    ensures
        x == y,
    decreases x.len(),
{
    if x.len() > 0 {
        let hx = seq![hex_digit_lower(x[0] as int / 16), hex_digit_lower(x[0] as int % 16)];
        let hy = seq![hex_digit_lower(y[0] as int / 16), hex_digit_lower(y[0] as int % 16)];
        assert(hex_lower(x) == hx + hex_lower(x.drop_first()));
        assert(hex_lower(y) == hy + hex_lower(y.drop_first()));
        assert(hex_lower(x)[0] == hx[0] && hex_lower(x)[1] == hx[1]);
        assert(hex_lower(y)[0] == hy[0] && hex_lower(y)[1] == hy[1]);
        lemma_hex_digit_lower_injective(x[0] as int / 16, y[0] as int / 16);
        lemma_hex_digit_lower_injective(x[0] as int % 16, y[0] as int % 16);
        assert(x[0] == y[0]);
        assert(hex_lower(x.drop_first()) =~= hex_lower(x).subrange(2, hex_lower(x).len() as int));
        assert(hex_lower(y.drop_first()) =~= hex_lower(y).subrange(2, hex_lower(y).len() as int));
        lemma_hex_lower_len(x);
        lemma_hex_lower_len(y);
        lemma_hex_lower_injective(x.drop_first(), y.drop_first());
        assert(x =~= seq![x[0]] + x.drop_first());
        assert(y =~= seq![y[0]] + y.drop_first());
    }
}

/// The digest a snapshot's fingerprint is taken from.
pub open spec fn snapshot_digest(m: &MachineInfo) -> Seq<u8> {
    sha1_of(encode_utf8(fingerprint_source(m.machine_name@, m.user_name@, m.processor_count as nat)))
}

/// Two snapshots whose digests differ in their first four bytes have
/// different fingerprints: the fingerprint shows those four bytes.
pub proof fn lemma_fingerprint_separates(a: &MachineInfo, b: &MachineInfo)
    requires
        snapshot_digest(a).len() >= 4,
        snapshot_digest(b).len() >= 4,
        snapshot_digest(a).take(4) != snapshot_digest(b).take(4),
    ensures
        a.computer_id() != b.computer_id(),
{
    let fa = fingerprint_bytes(snapshot_digest(a));
    let fb = fingerprint_bytes(snapshot_digest(b));
    if a.computer_id() == b.computer_id() {
        lemma_hex_lower_injective(fa, fb);
        assert(fa[1] == fb[1] && fa[2] == fb[2] && fa[3] == fb[3] && fa[4] == fb[4]);
        assert(snapshot_digest(a).take(4) =~= snapshot_digest(b).take(4));
    }
}

/// Snapshots that differ in exactly one of machine name, user name and
/// processor count hash different texts.
pub proof fn lemma_one_attribute_changes_source(a: &MachineInfo, b: &MachineInfo)
    requires
        (a.machine_name@ != b.machine_name@ && a.user_name@ == b.user_name@ && a.processor_count
            == b.processor_count) || (a.machine_name@ == b.machine_name@ && a.user_name@
            != b.user_name@ && a.processor_count == b.processor_count) || (a.machine_name@
            == b.machine_name@ && a.user_name@ == b.user_name@ && a.processor_count
            != b.processor_count),
    ensures
        encode_utf8(fingerprint_source(a.machine_name@, a.user_name@, a.processor_count as nat))
            != encode_utf8(fingerprint_source(b.machine_name@, b.user_name@, b.processor_count as nat)),
{
    let sa = fingerprint_source(a.machine_name@, a.user_name@, a.processor_count as nat);
    let sb = fingerprint_source(b.machine_name@, b.user_name@, b.processor_count as nat);
    vstd::utf8::encode_utf8_decode_utf8(sa);
    vstd::utf8::encode_utf8_decode_utf8(sb);
    let ta = os_label() + decimal(a.processor_count as nat);
    let tb = os_label() + decimal(b.processor_count as nat);
    assert(sa =~= a.machine_name@ + a.user_name@ + ta);
    assert(sb =~= b.machine_name@ + b.user_name@ + tb);
    if sa == sb {
        if a.processor_count != b.processor_count {
            lemma_decimal_injective(a.processor_count as nat, b.processor_count as nat);
            let p = a.machine_name@ + a.user_name@ + os_label();
            assert(sa =~= p + decimal(a.processor_count as nat));
            assert(sb =~= p + decimal(b.processor_count as nat));
            assert(decimal(a.processor_count as nat) =~= sa.subrange(p.len() as int, sa.len() as int));
            assert(decimal(b.processor_count as nat) =~= sb.subrange(p.len() as int, sb.len() as int));
        } else if a.machine_name@ != b.machine_name@ {
            let n = a.machine_name@.len();
            assert(a.machine_name@.len() == b.machine_name@.len());
            assert(a.machine_name@ =~= sa.subrange(0, n as int));
            assert(b.machine_name@ =~= sb.subrange(0, n as int));
        } else {
            let n = a.machine_name@.len();
            let u = a.user_name@.len();
            assert(a.user_name@.len() == b.user_name@.len());
            assert(a.user_name@ =~= sa.subrange(n as int, (n + u) as int));
            assert(b.user_name@ =~= sb.subrange(n as int, (n + u) as int));
        }
    }
}

proof fn lemma_decimal_nonempty(n: nat)
    ensures
        decimal(n).len() >= 1,
    decreases n,
{
    if n >= 10 {
        lemma_decimal_nonempty(n / 10);
    }
}

proof fn lemma_decimal_injective(n: nat, m: nat)
    requires
        n != m,
    ensures
        decimal(n) != decimal(m),
    decreases n + m,
{
    let digits = seq!['0', '1', '2', '3', '4', '5', '6', '7', '8', '9'];
    assert(forall|i: int, j: int| 0 <= i < 10 && 0 <= j < 10 && i != j ==> digits[i] != digits[j]);
    if decimal(n) == decimal(m) {
        if n < 10 && m < 10 {
            assert(decimal(n)[0] == digit_char(n));
            assert(decimal(m)[0] == digit_char(m));
            assert(digit_char(n) == digits[n as int]);
            assert(digit_char(m) == digits[m as int]);
        } else if n < 10 {
            lemma_decimal_nonempty(m / 10);
            assert(decimal(m).len() == decimal(m / 10).len() + 1);
        } else if m < 10 {
            lemma_decimal_nonempty(n / 10);
            assert(decimal(n).len() == decimal(n / 10).len() + 1);
        } else {
            assert(digit_char(n % 10) == digits[(n % 10) as int]);
            assert(digit_char(m % 10) == digits[(m % 10) as int]);
            assert(decimal(n).last() == digit_char(n % 10));
            assert(decimal(m).last() == digit_char(m % 10));
            assert(n % 10 == m % 10);
            assert(decimal(n).drop_last() =~= decimal(n / 10));
            assert(decimal(m).drop_last() =~= decimal(m / 10));
            assert(n / 10 != m / 10) by {
                assert(n == 10 * (n / 10) + n % 10);
                assert(m == 10 * (m / 10) + m % 10);
            }
            lemma_decimal_injective(n / 10, m / 10);
        }
    }
}

/// Snapshots that differ in exactly one attribute get different
/// fingerprints unless SHA-1 maps their texts to digests that agree in the
/// first four bytes.
pub proof fn lemma_one_attribute_changes_fingerprint(a: &MachineInfo, b: &MachineInfo)
    requires
        (a.machine_name@ != b.machine_name@ && a.user_name@ == b.user_name@ && a.processor_count
            == b.processor_count) || (a.machine_name@ == b.machine_name@ && a.user_name@
            != b.user_name@ && a.processor_count == b.processor_count) || (a.machine_name@
            == b.machine_name@ && a.user_name@ == b.user_name@ && a.processor_count
            != b.processor_count),
        snapshot_digest(a).len() >= 4,
        snapshot_digest(b).len() >= 4,
        snapshot_digest(a).take(4) != snapshot_digest(b).take(4),
    ensures
        encode_utf8(fingerprint_source(a.machine_name@, a.user_name@, a.processor_count as nat))
            != encode_utf8(fingerprint_source(b.machine_name@, b.user_name@, b.processor_count as nat)),
        a.computer_id() != b.computer_id(),
{
    lemma_one_attribute_changes_source(a, b);
    lemma_fingerprint_separates(a, b);
}

} // verus!
