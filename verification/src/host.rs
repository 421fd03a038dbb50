//! How much of the host a libvirt master machine gets.

use vstd::prelude::*;

use crate::text::join3;

verus! {

/// The memory of a master, in megabytes, where the host is not asked.
pub const DEFAULT_MASTER_MEM: u64 = 4096;

/// The processors of a master where the host is not asked.
pub const DEFAULT_MASTER_CPU: u32 = 2;

/// The host could not be asked for what a master should get.
#[derive(Debug, PartialEq)]
pub enum HostWarning {
    Memory(String),
    Cpus(String),
}

impl HostWarning {
    /// What the user is told.
    pub open spec fn spec_text(self) -> Seq<char> {
        match self {
            HostWarning::Memory(e) => "Failed to get total host memory, falling back to "@
                + "4096MB: "@ + e@,
            HostWarning::Cpus(e) => "Failed to get total host cpu, falling back to "@
                + "2cpu: "@ + e@,
        }
    }

    /// What the user is told.
    pub fn text(&self) -> (res: String)
        ensures
            res@ == self.spec_text(),
    {
        match self {
            HostWarning::Memory(e) => join3(
                "Failed to get total host memory, falling back to ",
                "4096MB: ",
                e.as_str(),
            ),
            HostWarning::Cpus(e) => join3(
                "Failed to get total host cpu, falling back to ",
                "2cpu: ",
                e.as_str(),
            ),
        }
    }
}

/// What the host answered when it was asked for its resources.
#[derive(Debug, PartialEq)]
pub struct HostAnswers {
    /// The kilobytes of memory that are available, or why it could not be asked.
    pub memory: Result<u64, String>,
    /// The number of processors, or why it could not be asked.
    pub cpus: Result<u32, String>,
}

/// The greater of two numbers.
pub open spec fn at_least(low: int, n: int) -> int {
    if n < low {
        low
    } else {
        n
    }
}

/// The memory of a master, in megabytes: what is available on the host, of
/// which `avail` is the number of kilobytes, less 4 GB per machine of the
/// cluster and 2 GB for the bootstrap machine, and never under 4 GB.
pub open spec fn master_mem_share(avail: u64, size: u64) -> int {
    at_least(DEFAULT_MASTER_MEM as int, (avail - (4 * size + 2) * 1024 * 1024) / 1024)
}

/// The processors of a master: those of the host less two per machine of the
/// cluster, and never under two.
pub open spec fn master_cpu_share(cpus: u32, size: u32) -> int {
    at_least(DEFAULT_MASTER_CPU as int, cpus - 2 * size)
}

/// The memory of a master, given what the host answered if it was asked.
pub open spec fn master_mem_for(
    libvirt_auto_size: bool,
    size: u64,
    memory: Result<u64, String>,
) -> (int, Option<HostWarning>) {
    if !libvirt_auto_size {
        (DEFAULT_MASTER_MEM as int, None)
    } else {
        match memory {
            Ok(avail) => (master_mem_share(avail, size), None),
            Err(e) => (DEFAULT_MASTER_MEM as int, Some(HostWarning::Memory(e))),
        }
    }
}

/// The processors of a master, given what the host answered if it was asked.
pub open spec fn master_cpu_for(
    libvirt_auto_size: bool,
    size: u32,
    cpus: Result<u32, String>,
) -> (int, Option<HostWarning>) {
    if !libvirt_auto_size {
        (DEFAULT_MASTER_CPU as int, None)
    } else {
        match cpus {
            Ok(cpus) => (master_cpu_share(cpus, size), None),
            Err(e) => (DEFAULT_MASTER_CPU as int, Some(HostWarning::Cpus(e))),
        }
    }
}

/// `sys_info::mem_info`, of which the available memory is kept: the kilobytes
/// that the running system says are available, or why it could not be asked.
/// Nothing is claimed of either, since both depend on the machine.
#[verifier::external_body]
fn host_memory() -> (res: Result<u64, String>) {
    match sys_info::mem_info() {
        Ok(mem) => Ok(mem.avail),
        Err(e) => Err(e.to_string()),
    }
}

/// `sys_info::cpu_num`: the number of processors of the running system, or why
/// it could not be asked. Nothing is claimed of either, since both depend on
/// the machine.
#[verifier::external_body]
fn host_cpus() -> (res: Result<u32, String>) {
    match sys_info::cpu_num() {
        Ok(cpus) => Ok(cpus),
        Err(e) => Err(e.to_string()),
    }
}

/// The same answer again.
pub(crate) fn copy_answer<T: Copy>(answer: &Result<T, String>) -> (res: Result<T, String>)
    ensures
        res == *answer,
{
    match answer {
        Ok(n) => Ok(*n),
        Err(e) => Err(e.clone()),
    }
}

/// What the host answers for its memory. A host that is not to be asked stands
/// for one that has none, which nobody looks at.
pub(crate) fn ask_memory(libvirt_auto_size: bool) -> (res: Result<u64, String>)
    ensures
        !libvirt_auto_size ==> res == Ok::<u64, String>(0),
{
    if libvirt_auto_size {
        host_memory()
    } else {
        Ok(0)
    }
}

/// What the host answers for its processors. A host that is not to be asked
/// stands for one that has none, which nobody looks at.
pub(crate) fn ask_cpus(libvirt_auto_size: bool) -> (res: Result<u32, String>)
    ensures
        !libvirt_auto_size ==> res == Ok::<u32, String>(0),
{
    if libvirt_auto_size {
        host_cpus()
    } else {
        Ok(0)
    }
}

/// Computes the memory of a master out of the host's answer, which counts only
/// if the size is to be discovered.
pub fn master_mem(libvirt_auto_size: bool, size: u64, memory: Result<u64, String>) -> (res: (
    u64,
    Option<HostWarning>,
))
    ensures
        (res.0 as int, res.1) == master_mem_for(libvirt_auto_size, size, memory),
{
    if !libvirt_auto_size {
        return (DEFAULT_MASTER_MEM, None);
    }
    match memory {
        Err(e) => (DEFAULT_MASTER_MEM, Some(HostWarning::Memory(e))),
        Ok(avail) => {
            let taken: u128 = (4 * (size as u128) + 2) * 1024 * 1024;
            if (avail as u128) < taken {
                (DEFAULT_MASTER_MEM, None)
            } else {
                let share: u64 = (avail - taken as u64) / 1024;
                if share < DEFAULT_MASTER_MEM {
                    (DEFAULT_MASTER_MEM, None)
                } else {
                    (share, None)
                }
            }
        },
    }
}

/// Computes the processors of a master out of the host's answer, which counts
/// only if the size is to be discovered.
pub fn master_cpu(libvirt_auto_size: bool, size: u32, cpus: Result<u32, String>) -> (res: (
    u32,
    Option<HostWarning>,
))
    ensures
        (res.0 as int, res.1) == master_cpu_for(libvirt_auto_size, size, cpus),
{
    if !libvirt_auto_size {
        return (DEFAULT_MASTER_CPU, None);
    }
    match cpus {
        Err(e) => (DEFAULT_MASTER_CPU, Some(HostWarning::Cpus(e))),
        Ok(cpus) => {
            let taken: u64 = 2 * (size as u64);
            if (cpus as u64) < taken + DEFAULT_MASTER_CPU as u64 {
                (DEFAULT_MASTER_CPU, None)
            } else {
                (cpus - taken as u32, None)
            }
        },
    }
}

/// Computes the memory of a master in megabytes: host memory less (4 GB *
/// cluster size + 2 GB for bootstrap), minimum of 4 GB. The host is asked only
/// if the size is to be discovered; what it answered is handed back.
pub fn get_master_mem(libvirt_auto_size: bool, size: u64) -> (res: (
    u64,
    Option<HostWarning>,
    Option<Result<u64, String>>,
))
    ensures
        res.2 is Some == libvirt_auto_size,
        !libvirt_auto_size ==> res.0 == DEFAULT_MASTER_MEM && res.1 is None,
        res.2 matches Some(memory) ==> (res.0 as int, res.1) == master_mem_for(
            libvirt_auto_size,
            size,
            memory,
        ),
{
    let memory = ask_memory(libvirt_auto_size);
    let (mem, warning) = master_mem(libvirt_auto_size, size, copy_answer(&memory));
    let asked = if libvirt_auto_size {
        Some(memory)
    } else {
        None
    };
    (mem, warning, asked)
}

/// Computes the processors of a master: host processors less 2 * cluster size,
/// minimum of 2. The host is asked only if the size is to be discovered; what it
/// answered is handed back.
pub fn get_master_cpu(libvirt_auto_size: bool, size: u32) -> (res: (
    u32,
    Option<HostWarning>,
    Option<Result<u32, String>>,
))
    ensures
        res.2 is Some == libvirt_auto_size,
        !libvirt_auto_size ==> res.0 == DEFAULT_MASTER_CPU && res.1 is None,
        res.2 matches Some(cpus) ==> (res.0 as int, res.1) == master_cpu_for(
            libvirt_auto_size,
            size,
            cpus,
        ),
{
    let cpus = ask_cpus(libvirt_auto_size);
    let (cpu, warning) = master_cpu(libvirt_auto_size, size, copy_answer(&cpus));
    let asked = if libvirt_auto_size {
        Some(cpus)
    } else {
        None
    };
    (cpu, warning, asked)
}

/// Whatever the host answers, a master gets at least 4 GB of memory and two
/// processors, and exactly that if the host is not to be asked.
pub proof fn masters_have_a_minimum(
    libvirt_auto_size: bool,
    mem_size: u64,
    memory: Result<u64, String>,
    cpu_size: u32,
    cpus: Result<u32, String>,
)
    ensures
        master_mem_for(libvirt_auto_size, mem_size, memory).0 >= 4096,
        master_cpu_for(libvirt_auto_size, cpu_size, cpus).0 >= 2,
        !libvirt_auto_size ==> master_mem_for(libvirt_auto_size, mem_size, memory) == (
            4096int,
            None::<HostWarning>,
        ),
        !libvirt_auto_size ==> master_cpu_for(libvirt_auto_size, cpu_size, cpus) == (
            2int,
            None::<HostWarning>,
        ),
{
}

/// A master never gets more memory, nor more processors, in a larger cluster
/// on the same host.
pub proof fn larger_clusters_get_smaller_shares(avail: u64, cpus: u32, small: u32, large: u32)
    requires
        small <= large,
    ensures
        master_mem_share(avail, large as u64) <= master_mem_share(avail, small as u64),
        master_cpu_share(cpus, large) <= master_cpu_share(cpus, small),
{
}

/// A master never gets less memory on a host that has more of it available, nor
/// fewer processors on a host that has more of them, in a cluster of the same
/// size.
pub proof fn larger_hosts_give_larger_shares(
    mem_size: u64,
    avail: u64,
    more_avail: u64,
    cpu_size: u32,
    cpus: u32,
    more_cpus: u32,
)
    requires
        avail <= more_avail,
        cpus <= more_cpus,
    ensures
        master_mem_share(avail, mem_size) <= master_mem_share(more_avail, mem_size),
        master_cpu_share(cpus, cpu_size) <= master_cpu_share(more_cpus, cpu_size),
{
}

/// Where the host has the memory for it, a master gets what is available beyond
/// 4 GB per machine of the cluster and 2 GB for the bootstrap machine, in whole
/// megabytes; otherwise it gets 4 GB. Of the processors it gets those beyond two
/// per machine of the cluster where that leaves two, and otherwise two.
pub proof fn masters_get_what_is_left(mem_size: u64, avail: u64, cpu_size: u32, cpus: u32)
    ensures
        ({
            let kb_per_gb: int = 1048576;
            let taken = (4 * mem_size + 2) * kb_per_gb;
            let (mem, warning) = master_mem_for(true, mem_size, Ok(avail));
            &&& warning is None
            &&& avail >= taken + 4 * kb_per_gb ==> taken + mem * 1024 <= avail < taken + (mem + 1)
                * 1024
            &&& avail < taken + 4 * kb_per_gb ==> mem == 4096
        }),
        ({
            let (cpu, warning) = master_cpu_for(true, cpu_size, Ok(cpus));
            &&& warning is None
            &&& cpus >= 2 * cpu_size + 2 ==> cpu + 2 * cpu_size == cpus
            &&& cpus < 2 * cpu_size + 2 ==> cpu == 2
        }),
{
}

/// A host that cannot be asked leaves a master the minimum, and the user is told
/// why.
pub proof fn silent_host_is_told(mem_size: u64, cpu_size: u32, reason: String)
    ensures
        ({
            let (mem, warning) = master_mem_for(true, mem_size, Err(reason));
            &&& mem == 4096
            &&& warning matches Some(told)
            &&& told.spec_text() == "Failed to get total host memory, falling back to 4096MB: "@
                + reason@
        }),
        ({
            let (cpu, warning) = master_cpu_for(true, cpu_size, Err(reason));
            &&& cpu == 2
            &&& warning matches Some(told)
            &&& told.spec_text() == "Failed to get total host cpu, falling back to 2cpu: "@
                + reason@
        }),
{
    reveal_strlit("Failed to get total host memory, falling back to ");
    reveal_strlit("4096MB: ");
    reveal_strlit("Failed to get total host memory, falling back to 4096MB: ");
    reveal_strlit("Failed to get total host cpu, falling back to ");
    reveal_strlit("2cpu: ");
    reveal_strlit("Failed to get total host cpu, falling back to 2cpu: ");
    assert("Failed to get total host memory, falling back to "@ + "4096MB: "@
        =~= "Failed to get total host memory, falling back to 4096MB: "@);
    assert("Failed to get total host cpu, falling back to "@ + "2cpu: "@
        =~= "Failed to get total host cpu, falling back to 2cpu: "@);
}

} // verus!
