//! The declarative description of the machine state to check: five ordered
//! lists of entries, supplied fully formed by whoever loads the configuration.
use vstd::prelude::*;

verus! {

/// An installed tool, with an optional version constraint (operator and value).
#[derive(Debug)]
pub struct ToolCheck {
    pub name: String,
    pub version: Option<String>,
    pub required: bool,
}

/// An environment variable, with an optional pattern that its value must contain.
#[derive(Debug)]
pub struct EnvVarCheck {
    pub name: String,
    pub required: bool,
    pub pattern: Option<String>,
}

/// A filesystem path, with an optional exact set of permission bits.
#[derive(Debug)]
pub struct FileCheck {
    pub path: String,
    pub required: bool,
    pub is_directory: bool,
    pub permissions: Option<u32>,
}

/// An endpoint to reach, with the status it must answer (200 when absent).
#[derive(Debug)]
pub struct NetworkCheck {
    pub url: String,
    pub status_code: Option<u16>,
}

/// The whole configuration: checks run in the order tools, env_vars, ports,
/// files, network, each list in its own order.
#[derive(Debug)]
pub struct Config {
    pub version: String,
    pub tools: Vec<ToolCheck>,
    pub env_vars: Vec<EnvVarCheck>,
    pub ports: Vec<u16>,
    pub files: Vec<FileCheck>,
    pub network: Vec<NetworkCheck>,
}

fn copy_opt_string(o: &Option<String>) -> (r: Option<String>)
    ensures
        r == *o,
{
    match o {
        Some(s) => Some(s.clone()),
        None => None,
    }
}

impl Clone for ToolCheck {
    fn clone(&self) -> (r: Self)
        ensures
            r == *self,
    {
        ToolCheck { name: self.name.clone(), version: copy_opt_string(&self.version), required: self.required }
    }
}

impl Clone for EnvVarCheck {
    fn clone(&self) -> (r: Self)
        ensures
            r == *self,
    {
        EnvVarCheck { name: self.name.clone(), required: self.required, pattern: copy_opt_string(&self.pattern) }
    }
}

impl Clone for FileCheck {
    fn clone(&self) -> (r: Self)
        ensures
            r == *self,
    {
        FileCheck {
            path: self.path.clone(),
            required: self.required,
            is_directory: self.is_directory,
            permissions: self.permissions,
        }
    }
}

impl Clone for NetworkCheck {
    fn clone(&self) -> (r: Self)
        ensures
            r == *self,
    {
        NetworkCheck { url: self.url.clone(), status_code: self.status_code }
    }
}

/// Value of a flag that defaults to on (`required`).
pub fn default_true() -> (r: bool)
    ensures
        r,
{
    true
}

/// Value of a flag that defaults to off (`is_directory`).
pub fn default_false() -> (r: bool)
    ensures
        !r,
{
    false
}

/// The file names searched for a configuration, in order.
pub open spec fn config_names() -> Seq<Seq<char>> {
    seq![".envcheck.yaml"@, ".envcheck.yml"@, "envcheck.yaml"@, "envcheck.yml"@]
}

/// The items of `s` joined with `sep` between them.
pub open spec fn joined(s: Seq<Seq<char>>, sep: Seq<char>) -> Seq<char>
    decreases s.len(),
{
    if s.len() == 0 {
        Seq::empty()
    } else if s.len() == 1 {
        s[0]
    } else {
        joined(s.drop_last(), sep) + sep + s.last()
    }
}

/// Index of the first of `present[i..n]` that is true, or `n`.
pub open spec fn first_present(present: Seq<bool>, i: int, n: int) -> int
    decreases n - i,
{
    if 0 <= i < n && i < present.len() && !present[i] {
        first_present(present, i + 1, n)
    } else {
        i
    }
}

pub open spec fn not_found_message() -> Seq<char> {
    "No config file found. Looking for: "@ + joined(config_names(), ", "@)
}

pub open spec fn find_config_outcome(present: Seq<bool>) -> Result<Seq<char>, Seq<char>> {
    let n = if present.len() < 4 { present.len() as int } else { 4 };
    let k = first_present(present, 0, n);
    if k < n {
        Ok(config_names()[k])
    } else {
        Err(not_found_message())
    }
}

pub open spec fn string_seq(v: Seq<String>) -> Seq<Seq<char>> {
    v.map_values(|s: String| s@)
}

/// The file names searched for a configuration, in order.
pub fn config_file_names() -> (r: Vec<String>)
    ensures
        string_seq(r@) == config_names(),
{
    let mut v: Vec<String> = Vec::new();
    v.push(String::from_str(".envcheck.yaml"));
    v.push(String::from_str(".envcheck.yml"));
    v.push(String::from_str("envcheck.yaml"));
    v.push(String::from_str("envcheck.yml"));
    assert(string_seq(v@) =~= config_names());
    v
}

impl Config {
    /// Picks the configuration file to load: `present[i]` tells whether the
    /// `i`-th of `config_file_names()` exists. Gives the first name that
    /// does, or the message listing every name searched.
    pub fn find_config(present: &Vec<bool>) -> (r: Result<String, String>)
        ensures
            match r {
                Ok(name) => find_config_outcome(present@) == Ok::<Seq<char>, Seq<char>>(name@),
                Err(m) => find_config_outcome(present@) == Err::<Seq<char>, Seq<char>>(m@),
            },
    {
        let names = config_file_names();
        assert(config_names().len() == 4);
        assert(string_seq(names@).len() == names@.len());
        assert(names@.len() == 4);
        let n: usize = if present.len() < 4 {
            present.len()
        } else {
            4
        };
        let mut i: usize = 0;
        while i < n
            invariant
                i <= n,
                n <= present@.len(),
                n <= 4,
                n == (if present@.len() < 4 { present@.len() as int } else { 4 }),
                first_present(present@, i as int, n as int) == first_present(present@, 0, n as int),
                names@.len() == 4,
                string_seq(names@) == config_names(),
            decreases n - i,
        {
            if present[i] {
                assert(names@[i as int]@ == string_seq(names@)[i as int]);
                return Ok(names[i].clone());
            }
            i = i + 1;
        }
        let mut m = String::from_str("No config file found. Looking for: ");
        let ghost prefix = m@;
        let mut j: usize = 0;
        while j < names.len()
            invariant
                j <= names@.len(),
                names@.len() == 4,
                string_seq(names@) == config_names(),
                m@ == prefix + joined(string_seq(names@).take(j as int), ", "@),
            decreases names.len() - j,
        {
            let ghost t = string_seq(names@).take(j + 1);
            assert(t.drop_last() =~= string_seq(names@).take(j as int));
            if j > 0 {
                m.append(", ");
            } else {
                assert(t =~= seq![names@[0]@]);
            }
            m.append(names[j].as_str());
            assert(names@[j as int]@ == t.last());
            proof {
                if j > 0 {
                    assert(m@ =~= prefix + (joined(t.drop_last(), ", "@) + ", "@ + t.last()));
                } else {
                    assert(m@ =~= prefix + t[0]);
                }
            }
            j = j + 1;
        }
        assert(string_seq(names@).take(4) =~= config_names());
        Err(m)
    }
}

} // verus!
