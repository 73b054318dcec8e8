use vstd::prelude::*;

use crate::error::MemError;

verus! {

/// A running process: its id and executable name.
pub struct ProcessInfo {
    pub pid: u32,
    pub name: String,
}

/// A module loaded in the target process. `end_address` is
/// `base_address + size`.
pub struct ModuleInfo {
    pub name: String,
    pub base_address: u64,
    pub size: u32,
    pub end_address: u64,
}

/// Where a module lies in the target's address space: `[start, end)`.
pub struct ModuleAddressInfo {
    pub start_address: u64,
    pub end_address: u64,
}

/// How an engine is to be created: by process name or by process id (the
/// name wins when both are given), with an explicit architecture or one
/// detected from the process, and with or without diagnostic output.
pub struct CreateOptions {
    pub process_name: Option<String>,
    pub pid: Option<u32>,
    pub arch_x64: Option<bool>,
    pub debug: Option<bool>,
}

/// The process that an engine is to open.
pub enum Target {
    /// The first running process with this name, compared ignoring ASCII case.
    Name(String),
    /// The process with this id.
    Pid(u32),
}

impl ModuleInfo {
    /// The end address is the base plus the size.
    pub open spec fn wf(&self) -> bool {
        self.end_address == self.base_address + self.size
    }

    /// Describes a module from its name, base address and size.
    pub fn new(name: String, base_address: u64, size: u32) -> (r: ModuleInfo)
        requires
            base_address + size <= u64::MAX,
        ensures
            r.wf(),
            r.name@ == name@,
            r.base_address == base_address,
            r.size == size,
    {
        ModuleInfo { name, base_address, size, end_address: base_address + size as u64 }
    }
}

impl ModuleAddressInfo {
    /// A range of a module: its end lies at most `u32::MAX` bytes after its
    /// start.
    pub open spec fn wf(&self) -> bool {
        self.start_address <= self.end_address <= self.start_address + u32::MAX
    }
}

/// `c` with an ASCII upper-case letter taken to lower case, as a code point.
pub open spec fn spec_ascii_fold(c: char) -> u32 {
    if 'A' <= c <= 'Z' {
        (c as u32 + 32) as u32
    } else {
        c as u32
    }
}

/// Whether two names are equal when ASCII letters are compared without
/// regard to case.
pub open spec fn spec_names_match(a: Seq<char>, b: Seq<char>) -> bool {
    &&& a.len() == b.len()
    &&& forall|i: int| 0 <= i < a.len() ==> spec_ascii_fold(#[trigger] a[i]) == spec_ascii_fold(b[i])
}

fn ascii_fold(c: char) -> (r: u32)
    ensures
        r == spec_ascii_fold(c),
{
    if 'A' <= c && c <= 'Z' {
        c as u32 + 32
    } else {
        c as u32
    }
}

/// Compares two names, ignoring the case of ASCII letters.
pub fn eq_ignore_ascii_case(a: &str, b: &str) -> (r: bool)
    ensures
        r == spec_names_match(a@, b@),
{
    let n = a.unicode_len();
    if n != b.unicode_len() {
        return false;
    }
    let mut i: usize = 0;
    while i < n
        invariant
            n == a@.len(),
            n == b@.len(),
            i <= n,
            forall|k: int| 0 <= k < i ==> spec_ascii_fold(#[trigger] a@[k]) == spec_ascii_fold(b@[k]),
        decreases n - i,
    {
        if ascii_fold(a.get_char(i)) != ascii_fold(b.get_char(i)) {
            return false;
        }
        i = i + 1;
    }
    true
}

/// Whether `i` is the first index of `processes` whose name matches `name`.
pub open spec fn spec_first_process(processes: Seq<ProcessInfo>, name: Seq<char>, i: int) -> bool {
    &&& 0 <= i < processes.len()
    &&& spec_names_match(processes[i].name@, name)
    &&& forall|j: int| 0 <= j < i ==> !spec_names_match(#[trigger] processes[j].name@, name)
}

/// Id of the first process in a snapshot whose name matches `name`,
/// ignoring ASCII case; `None` when none does.
pub fn find_process_id(processes: &Vec<ProcessInfo>, name: &str) -> (r: Option<u32>)
    ensures
        r is None <==> forall|j: int|
            0 <= j < processes@.len() ==> !spec_names_match(#[trigger] processes@[j].name@, name@),
        r is Some ==> exists|i: int|
            spec_first_process(processes@, name@, i) && #[trigger] processes@[i].pid == r->Some_0,
{
    let n = processes.len();
    let mut i: usize = 0;
    while i < n
        invariant
            n == processes@.len(),
            i <= n,
            forall|j: int| 0 <= j < i ==> !spec_names_match(#[trigger] processes@[j].name@, name@),
        decreases n - i,
    {
        if eq_ignore_ascii_case(processes[i].name.as_str(), name) {
            assert(spec_first_process(processes@, name@, i as int));
            return Some(processes[i].pid);
        }
        i = i + 1;
    }
    None
}

/// Whether `i` is the first index of `modules` whose name matches `name`.
pub open spec fn spec_first_module(modules: Seq<ModuleInfo>, name: Seq<char>, i: int) -> bool {
    &&& 0 <= i < modules.len()
    &&& spec_names_match(modules[i].name@, name)
    &&& forall|j: int| 0 <= j < i ==> !spec_names_match(#[trigger] modules[j].name@, name)
}

/// Address range of the first module in a snapshot whose name matches
/// `name`, ignoring ASCII case; `None` when none does.
pub fn find_module_info(modules: &Vec<ModuleInfo>, name: &str) -> (r: Option<ModuleAddressInfo>)
    requires
        forall|j: int| 0 <= j < modules@.len() ==> (#[trigger] modules@[j]).wf(),
    ensures
        r is None <==> forall|j: int|
            0 <= j < modules@.len() ==> !spec_names_match(#[trigger] modules@[j].name@, name@),
        r is Some ==> exists|i: int|
            spec_first_module(modules@, name@, i) && #[trigger] modules@[i].base_address
                == r->Some_0.start_address && modules@[i].end_address == r->Some_0.end_address,
        r is Some ==> r->Some_0.wf(),
{
    let n = modules.len();
    let mut i: usize = 0;
    while i < n
        invariant
            n == modules@.len(),
            i <= n,
            forall|j: int| 0 <= j < i ==> !spec_names_match(#[trigger] modules@[j].name@, name@),
            forall|j: int| 0 <= j < modules@.len() ==> (#[trigger] modules@[j]).wf(),
        decreases n - i,
    {
        if eq_ignore_ascii_case(modules[i].name.as_str(), name) {
            assert(spec_first_module(modules@, name@, i as int));
            assert(modules@[i as int].wf());
            return Some(
                ModuleAddressInfo {
                    start_address: modules[i].base_address,
                    end_address: modules[i].end_address,
                },
            );
        }
        i = i + 1;
    }
    None
}

/// Describes the module found at `info` under the name it was asked by:
/// base, size and end are recomputed from the range.
pub fn describe_module(name: String, info: &ModuleAddressInfo) -> (r: ModuleInfo)
    requires
        info.wf(),
    ensures
        r.wf(),
        r.name@ == name@,
        r.base_address == info.start_address,
        r.end_address == info.end_address,
        r.size == info.end_address - info.start_address,
{
    ModuleInfo {
        name,
        base_address: info.start_address,
        size: (info.end_address - info.start_address) as u32,
        end_address: info.end_address,
    }
}

/// The process that the options designate: by name when a name is given,
/// else by id; `MissingTarget` when neither is.
pub fn select_target(options: &CreateOptions) -> (r: Result<Target, MemError>)
    ensures
        match (options.process_name, options.pid) {
            (Some(n), _) => r is Ok && r->Ok_0 is Name && r->Ok_0->Name_0@ == n@,
            (None, Some(p)) => r is Ok && r->Ok_0 == Target::Pid(p),
            (None, None) => r is Err && r->Err_0 == MemError::MissingTarget,
        },
{
    match &options.process_name {
        Some(n) => Ok(Target::Name(n.clone())),
        None => match options.pid {
            Some(p) => Ok(Target::Pid(p)),
            None => Err(MemError::MissingTarget),
        },
    }
}

} // verus!
