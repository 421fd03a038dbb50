//! The platforms a cluster can run on, and the sizes it can have.

use vstd::prelude::*;

verus! {

/// A platform that the installer supports.
#[derive(Debug, Clone, Copy, PartialEq, Eq, Structural)]
pub enum Platform {
    Libvirt,
    AWS,
    GCP,
    AZURE,
}

/// How many machines a cluster gets.
#[derive(Debug, Clone, Copy, PartialEq, Eq, Structural)]
pub enum ClusterSize {
    /// Only install a single node.
    Single,
    /// Three schedulable masters.
    Compact,
}

/// The lower-case form of an ASCII letter; any other character unchanged.
pub open spec fn ascii_lower(c: char) -> char {
    if 'A' <= c <= 'Z' {
        (c as u32 + 32) as char
    } else {
        c
    }
}

impl Platform {
    /// The name under which the platform is shown.
    pub open spec fn shown_name(self) -> Seq<char> {
        match self {
            Platform::Libvirt => "Libvirt"@,
            Platform::AWS => "AWS"@,
            Platform::GCP => "GCP"@,
            Platform::AZURE => "AZURE"@,
        }
    }

    /// The name of the platform in file names.
    pub open spec fn file_tag(self) -> Seq<char> {
        match self {
            Platform::Libvirt => "libvirt"@,
            Platform::AWS => "aws"@,
            Platform::GCP => "gcp"@,
            Platform::AZURE => "azure"@,
        }
    }

    /// Shows the platform.
    pub fn to_string(&self) -> (res: String)
        ensures
            res@ == self.shown_name(),
    {
        let name = match self {
            Platform::Libvirt => "Libvirt",
            Platform::AWS => "AWS",
            Platform::GCP => "GCP",
            Platform::AZURE => "AZURE",
        };
        String::from_str(name)
    }

    /// The name of the platform in file names.
    pub fn tag(&self) -> (res: &'static str)
        ensures
            res@ == self.file_tag(),
    {
        match self {
            Platform::Libvirt => "libvirt",
            Platform::AWS => "aws",
            Platform::GCP => "gcp",
            Platform::AZURE => "azure",
        }
    }
}

impl ClusterSize {
    /// How many control plane machines a cluster of this size has.
    pub open spec fn spec_masters(self) -> u32 {
        match self {
            ClusterSize::Single => 1,
            ClusterSize::Compact => 3,
        }
    }

    /// How many control plane machines a cluster of this size has.
    pub fn masters(&self) -> (res: u32)
        ensures
            res == self.spec_masters(),
    {
        match self {
            ClusterSize::Single => 1,
            ClusterSize::Compact => 3,
        }
    }
}

/// The size that is borrowed, if any is.
pub open spec fn borrowed_size(size: Option<&ClusterSize>) -> Option<ClusterSize> {
    match size {
        Some(size) => Some(*size),
        None => None,
    }
}

/// The size of the control plane, one machine if no size was asked for.
pub open spec fn masters_of(size: Option<ClusterSize>) -> u32 {
    match size {
        Some(size) => size.spec_masters(),
        None => 1,
    }
}

/// The name of a platform in file names is its shown name in lower case.
pub proof fn tag_is_lower_case_name(p: Platform)
    ensures
        p.file_tag() == p.shown_name().map_values(|c: char| ascii_lower(c)),
{
    reveal_strlit("Libvirt");
    reveal_strlit("AWS");
    reveal_strlit("GCP");
    reveal_strlit("AZURE");
    reveal_strlit("libvirt");
    reveal_strlit("aws");
    reveal_strlit("gcp");
    reveal_strlit("azure");
    assert(p.file_tag() =~= p.shown_name().map_values(|c: char| ascii_lower(c)));
}

/// Two platforms never share a name in file names.
pub proof fn tags_are_distinct(p: Platform, q: Platform)
    requires
        p.file_tag() == q.file_tag(),
    ensures
        p == q,
{
    reveal_strlit("libvirt");
    reveal_strlit("aws");
    reveal_strlit("gcp");
    reveal_strlit("azure");
    assert("libvirt"@[0] == 'l');
    assert("aws"@[1] == 'w');
    assert("gcp"@[0] == 'g');
    assert("azure"@[1] == 'z');
    assert("aws"@[0] == 'a' && "azure"@[0] == 'a');
}

/// A single node cluster has one control plane machine, a compact one three, and
/// one without a size counts as a single node.
pub proof fn sizes_count_their_masters(size: ClusterSize)
    ensures
        size == ClusterSize::Single ==> size.spec_masters() == 1,
        size == ClusterSize::Compact ==> size.spec_masters() == 3,
        masters_of(Some(size)) == size.spec_masters(),
        masters_of(None) == 1,
{
}

} // verus!
