//! The spreader's static brute-force dictionaries: 10 usernames
//! common to default Linux and cloud images, and 16 common/default/
//! weak passwords, including the empty string ("account has no
//! password set").  Their only behavior is a deterministic iteration
//! order for the 160 credential attempts.

use vstd::prelude::*;

verus! {

/// The username list, in attempt order.
pub open spec fn spec_usernames() -> Seq<Seq<char>> {
    seq![
        "root"@,
        "admin"@,
        "ubuntu"@,
        "debian"@,
        "pi"@,
        "user"@,
        "vagrant"@,
        "ec2-user"@,
        "centos"@,
        "kali"@,
    ]
}

/// The password list, in attempt order; entry 14 is the empty string.
pub open spec fn spec_passwords() -> Seq<Seq<char>> {
    seq![
        "password"@,
        "admin"@,
        "root"@,
        "123456"@,
        "toor"@,
        "pa$$word"@,
        "pass"@,
        "raspberry"@,
        "vagrant"@,
        "changeme"@,
        "test"@,
        "letmein"@,
        "1234"@,
        "qwerty"@,
        ""@,
        "admin123"@,
    ]
}

/// Builds the username list.
pub fn usernames() -> (r: Vec<String>)
    ensures
        r@.len() == 10,
        forall|i: int| 0 <= i < 10 ==> r@[i]@ == spec_usernames()[i],
{
    let mut v: Vec<String> = Vec::new();
    v.push(String::from_str("root"));
    v.push(String::from_str("admin"));
    v.push(String::from_str("ubuntu"));
    v.push(String::from_str("debian"));
    v.push(String::from_str("pi"));
    v.push(String::from_str("user"));
    v.push(String::from_str("vagrant"));
    v.push(String::from_str("ec2-user"));
    v.push(String::from_str("centos"));
    v.push(String::from_str("kali"));
    v
}

/// Builds the password list.
pub fn passwords() -> (r: Vec<String>)
    ensures
        r@.len() == 16,
        forall|i: int| 0 <= i < 16 ==> r@[i]@ == spec_passwords()[i],
{
    let mut v: Vec<String> = Vec::new();
    v.push(String::from_str("password"));
    v.push(String::from_str("admin"));
    v.push(String::from_str("root"));
    v.push(String::from_str("123456"));
    v.push(String::from_str("toor"));
    v.push(String::from_str("pa$$word"));
    v.push(String::from_str("pass"));
    v.push(String::from_str("raspberry"));
    v.push(String::from_str("vagrant"));
    v.push(String::from_str("changeme"));
    v.push(String::from_str("test"));
    v.push(String::from_str("letmein"));
    v.push(String::from_str("1234"));
    v.push(String::from_str("qwerty"));
    v.push(String::from_str(""));
    v.push(String::from_str("admin123"));
    v
}

/// Builds the full brute-force attempt space: every (username,
/// password) pair, in list order - all 16 passwords for the first
/// username, then for the second, and so on, 160 attempts in all.
pub fn credential_attempts() -> (r: Vec<(String, String)>)
    ensures
        r@.len() == 160,
        forall|i: int, j: int| 0 <= i < 10 && 0 <= j < 16 ==> {
            &&& (#[trigger] r@[16 * i + j]).0@ == spec_usernames()[i]
            &&& r@[16 * i + j].1@ == spec_passwords()[j]
        },
{
    let users = usernames();
    let passes = passwords();
    let mut out: Vec<(String, String)> = Vec::new();
    let mut i: usize = 0;
    while i < 10
        invariant
            users@.len() == 10,
            passes@.len() == 16,
            forall|k: int| 0 <= k < 10 ==> users@[k]@ == spec_usernames()[k],
            forall|k: int| 0 <= k < 16 ==> passes@[k]@ == spec_passwords()[k],
            0 <= i <= 10,
            out@.len() == 16 * i,
            forall|a: int, b: int| 0 <= a < i && 0 <= b < 16 ==> {
                &&& (#[trigger] out@[16 * a + b]).0@ == spec_usernames()[a]
                &&& out@[16 * a + b].1@ == spec_passwords()[b]
            },
        decreases 10 - i,
    {
        let mut j: usize = 0;
        while j < 16
            invariant
                users@.len() == 10,
                passes@.len() == 16,
                forall|k: int| 0 <= k < 10 ==> users@[k]@ == spec_usernames()[k],
                forall|k: int| 0 <= k < 16 ==> passes@[k]@ == spec_passwords()[k],
                0 <= i < 10,
                0 <= j <= 16,
                out@.len() == 16 * i + j,
                forall|a: int, b: int| 0 <= a < i && 0 <= b < 16 ==> {
                    &&& (#[trigger] out@[16 * a + b]).0@ == spec_usernames()[a]
                    &&& out@[16 * a + b].1@ == spec_passwords()[b]
                },
                forall|b: int| 0 <= b < j ==> {
                    &&& (#[trigger] out@[16 * (i as int) + b]).0@ == spec_usernames()[i as int]
                    &&& out@[16 * (i as int) + b].1@ == spec_passwords()[b]
                },
            decreases 16 - j,
        {
            let u = users[i].clone();
            let p = passes[j].clone();
            out.push((u, p));
            j = j + 1;
        }
        i = i + 1;
    }
    out
}

/// The empty-string password stands at exactly one position of the
/// list: entry 14.
pub proof fn lemma_empty_password_once()
    ensures
        spec_passwords().len() == 16,
        spec_passwords()[14] == ""@,
        forall|j: int| 0 <= j < 16 && j != 14 ==> spec_passwords()[j] != ""@,
{
    reveal_strlit("");
    reveal_strlit("password");
    reveal_strlit("admin");
    reveal_strlit("root");
    reveal_strlit("123456");
    reveal_strlit("toor");
    reveal_strlit("pa$$word");
    reveal_strlit("pass");
    reveal_strlit("raspberry");
    reveal_strlit("vagrant");
    reveal_strlit("changeme");
    reveal_strlit("test");
    reveal_strlit("letmein");
    reveal_strlit("1234");
    reveal_strlit("qwerty");
    reveal_strlit("admin123");
    assert(""@.len() == 0);
    assert("password"@.len() == 8);
    assert(spec_passwords()[0] == "password"@);
    assert(spec_passwords()[0] != ""@);
    assert(spec_passwords()[1] != ""@);
    assert(spec_passwords()[2] != ""@);
    assert(spec_passwords()[3] != ""@);
    assert(spec_passwords()[4] != ""@);
    assert(spec_passwords()[5] != ""@);
    assert(spec_passwords()[6] != ""@);
    assert(spec_passwords()[7] != ""@);
    assert(spec_passwords()[8] != ""@);
    assert(spec_passwords()[9] != ""@);
    assert(spec_passwords()[10] != ""@);
    assert(spec_passwords()[11] != ""@);
    assert(spec_passwords()[12] != ""@);
    assert(spec_passwords()[13] != ""@);
    assert(spec_passwords()[15] != ""@);
}

} // verus!
