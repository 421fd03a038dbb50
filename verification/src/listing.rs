//! The lists that are printed.

use vstd::prelude::*;

use crate::failure::{append_items, item_lines};
use crate::platform::Platform;
use crate::text::join3;

verus! {

/// What is known of a cluster.
pub struct ClusterFacts {
    pub name: String,
    /// The platform it was launched on, if that is known.
    pub platform: Option<Platform>,
    /// Whether it has a failure stamp.
    pub failed: bool,
    pub has_kubeconfig: bool,
}

impl ClusterFacts {
    /// The platform as it is listed.
    pub open spec fn platform_text(self) -> Seq<char> {
        match self.platform {
            Some(platform) => platform.shown_name(),
            None => "<unknown>"@,
        }
    }

    /// The state of the cluster as it is listed.
    pub open spec fn state_text(self) -> Seq<char> {
        if self.failed {
            "install-failed"@
        } else if self.has_kubeconfig {
            "launched"@
        } else {
            "unknown"@
        }
    }

    /// The line of the cluster.
    pub open spec fn row_text(self) -> Seq<char> {
        self.name@ + "\t"@ + self.platform_text() + "\t"@ + self.state_text() + "\n"@
    }

    /// The state of the cluster as it is listed.
    pub fn state(&self) -> (res: &'static str)
        ensures
            res@ == self.state_text(),
    {
        if self.failed {
            "install-failed"
        } else if self.has_kubeconfig {
            "launched"
        } else {
            "unknown"
        }
    }

    /// The line of the cluster.
    fn row(&self) -> (res: String)
        ensures
            res@ == self.row_text(),
    {
        let platform = match &self.platform {
            Some(platform) => platform.to_string(),
            None => String::from_str("<unknown>"),
        };
        join3(self.name.as_str(), "\t", platform.as_str()).concat("\t").concat(
            self.state(),
        ).concat("\n")
    }
}

/// The lines of the clusters.
pub open spec fn rows_text(clusters: Seq<ClusterFacts>) -> Seq<char>
    decreases clusters.len(),
{
    if clusters.len() == 0 {
        seq![]
    } else {
        rows_text(clusters.drop_last()) + clusters.last().row_text()
    }
}

/// The table of the clusters, its columns parted by tabs.
pub open spec fn table_text(clusters: Seq<ClusterFacts>) -> Seq<char> {
    "NAME\tPLATFORM\tSTATUS\n"@ + rows_text(clusters)
}

/// What `tabwriter` writes for a text whose columns are parted by tabs.
pub uninterp spec fn tab_aligned(text: Seq<char>) -> Seq<char>;

/// `tabwriter::TabWriter` over a vector, as it is by default: aligns the
/// columns of the text; what it writes depends on the text alone. Writing into a
/// vector does not fail, and what is written is text: that of the cells, which
/// end at tabs and line ends, with spaces and line ends between them.
#[verifier::external_body]
fn align_tabs(text: &str) -> (res: Option<String>)
    ensures
        res is Some,
        res->Some_0@ == tab_aligned(text@),
{
    let mut tw = tabwriter::TabWriter::new(Vec::new());
    std::io::Write::write_all(&mut tw, text.as_bytes()).ok()?;
    let aligned = tw.into_inner().ok()?;
    String::from_utf8(aligned).ok()
}

/// The table of the clusters, its columns parted by tabs.
pub fn clusters_table(clusters: &Vec<ClusterFacts>) -> (res: String)
    ensures
        res@ == table_text(clusters@),
{
    let mut res = String::from_str("NAME\tPLATFORM\tSTATUS\n");
    assert(res@ =~= "NAME\tPLATFORM\tSTATUS\n"@ + rows_text(clusters@.take(0)));
    for i in 0..clusters.len()
        invariant
            res@ == "NAME\tPLATFORM\tSTATUS\n"@ + rows_text(clusters@.take(i as int)),
    {
        let row = clusters[i].row();
        res.append(row.as_str());
        assert(clusters@.take(i + 1).drop_last() =~= clusters@.take(i as int));
        assert(res@ =~= "NAME\tPLATFORM\tSTATUS\n"@ + rows_text(clusters@.take(i + 1)));
    }
    assert(clusters@.take(clusters@.len() as int) =~= clusters@);
    res
}

/// The list of the clusters as it is printed: their table with its columns
/// aligned, or that there is none.
pub fn print_clusters(clusters: &Vec<ClusterFacts>) -> (res: String)
    ensures
        res@ == (if clusters@.len() == 0 {
            "No clusters.\n"@
        } else {
            tab_aligned(table_text(clusters@))
        }),
{
    if clusters.len() == 0 {
        String::from_str("No clusters.\n")
    } else {
        let table = clusters_table(clusters);
        align_tabs(table.as_str()).unwrap()
    }
}

/// A list as it is printed: one indented line per item, or that there is none.
pub open spec fn list_text(header: Seq<char>, l: Seq<String>) -> Seq<char> {
    if l.len() == 0 {
        "No "@ + header + ".\n"@
    } else {
        item_lines(l)
    }
}

/// A list as it is printed: one indented line per item, or that there is none.
pub fn print_list(header: &str, l: &[String]) -> (res: String)
    ensures
        res@ == list_text(header@, l@),
{
    if l.len() == 0 {
        join3("No ", header, ".\n")
    } else {
        let res = append_items("", l);
        proof {
            reveal_strlit("");
            assert(res@ =~= item_lines(l@));
        }
        res
    }
}

/// The status of a cluster says what is there: "install-failed" exactly if there
/// is a failure stamp, "launched" exactly if there is a kubeconfig and no such
/// stamp, "unknown" exactly if there is neither. Nothing else has an influence.
pub proof fn status_says_what_is_there(c: ClusterFacts)
    ensures
        c.state_text() == "install-failed"@ <==> c.failed,
        c.state_text() == "launched"@ <==> c.has_kubeconfig && !c.failed,
        c.state_text() == "unknown"@ <==> !c.has_kubeconfig && !c.failed,
{
    reveal_strlit("install-failed");
    reveal_strlit("launched");
    reveal_strlit("unknown");
    assert("install-failed"@.len() == 14);
    assert("launched"@.len() == 8);
    assert("unknown"@.len() == 7);
}

/// The line of a cluster has three columns: its name, its platform if that is
/// known, and its status.
pub proof fn row_has_three_columns(c: ClusterFacts)
    ensures
        exists|platform: Seq<char>, status: Seq<char>|
            {
                &&& #[trigger] (c.name@ + "\t"@ + platform + "\t"@ + status + "\n"@)
                    == c.row_text()
                &&& c.platform is None ==> platform == "<unknown>"@
                &&& c.platform == Some(Platform::Libvirt) ==> platform == "Libvirt"@
                &&& c.platform == Some(Platform::AWS) ==> platform == "AWS"@
                &&& c.platform == Some(Platform::GCP) ==> platform == "GCP"@
                &&& c.platform == Some(Platform::AZURE) ==> platform == "AZURE"@
                &&& c.failed ==> status == "install-failed"@
                &&& !c.failed && c.has_kubeconfig ==> status == "launched"@
                &&& !c.failed && !c.has_kubeconfig ==> status == "unknown"@
            },
{
    assert(c.name@ + "\t"@ + c.platform_text() + "\t"@ + c.state_text() + "\n"@ == c.row_text());
}

/// The table has its headings and then one line per cluster, in their order.
pub proof fn table_has_a_line_per_cluster(clusters: Seq<ClusterFacts>, c: ClusterFacts)
    ensures
        table_text(Seq::empty()) == "NAME\tPLATFORM\tSTATUS\n"@,
        table_text(clusters.push(c)) == table_text(clusters) + c.row_text(),
{
    assert(clusters.push(c).drop_last() =~= clusters);
    assert(table_text(Seq::empty()) =~= "NAME\tPLATFORM\tSTATUS\n"@);
    assert(table_text(clusters.push(c)) =~= table_text(clusters) + c.row_text());
}

/// A list that is printed has one indented line per item, in their order; an
/// empty list says what there is none of.
pub proof fn list_has_a_line_per_item(header: Seq<char>, l: Seq<String>, item: String)
    ensures
        list_text(header, Seq::empty()) == "No "@ + header + ".\n"@,
        list_text(header, seq![item]) == "  "@ + item@ + "\n"@,
        l.len() > 0 ==> list_text(header, l.push(item)) == list_text(header, l) + "  "@ + item@
            + "\n"@,
{
    assert(l.push(item).drop_last() =~= l);
    assert(seq![item].drop_last() =~= Seq::<String>::empty());
    assert(item_lines(Seq::<String>::empty()) =~= Seq::<char>::empty());
    assert(list_text(header, seq![item]) =~= "  "@ + item@ + "\n"@);
    if l.len() > 0 {
        assert(list_text(header, l.push(item)) =~= list_text(header, l) + "  "@ + item@ + "\n"@);
    }
}

} // verus!
