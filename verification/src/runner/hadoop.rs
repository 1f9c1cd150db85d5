//! Downloading Hadoop and Spark: the URLs of their tarballs and the
//! commands that unpack them in place.

use vstd::prelude::*;
use crate::runner::cmd::Cmd;
use crate::text::{owned, push_str, replace_all, replace_str};

verus! {

/// The Apache mirror the tarballs are downloaded from.
pub const APACHE_HADOOP_MIRROR: &'static str = "http://apache-mirror.8birdsvideo.com/";

/// The path of the Hadoop tarball on the mirror; `VERSION` stands for the
/// version.
pub const HADOOP_TARBALL_URL_TEMPLATE: &'static str = "hadoop/common/hadoop-VERSION/hadoop-VERSION.tar.gz";

/// The path of the Spark tarball on the mirror; `VERSION` stands for the
/// version.
pub const SPARK_TARBALL_URL_TEMPLATE: &'static str = "spark/spark-VERSION/spark-VERSION-bin-without-hadoop.tgz";

/// Which of the two stacks to download.
#[derive(Debug, Copy, Clone, PartialEq, Eq, Structural)]
pub enum Stack {
    Hadoop,
    Spark,
}

/// The URL of the tarball of `stack` at `version`.
pub open spec fn tarball_url(stack: Stack, version: Seq<char>) -> Seq<char> {
    APACHE_HADOOP_MIRROR@ + replace_all(
        match stack {
            Stack::Hadoop => HADOOP_TARBALL_URL_TEMPLATE@,
            Stack::Spark => SPARK_TARBALL_URL_TEMPLATE@,
        },
        "VERSION"@,
        version,
    )
}

/// The name `stack` is unpacked under in `path`, and the directory the
/// tarball unpacks to.
pub open spec fn unpacked_dir(stack: Stack, version: Seq<char>) -> Seq<char> {
    match stack {
        Stack::Hadoop => "hadoop-"@ + version,
        Stack::Spark => "spark-"@ + version + "-bin-without-hadoop"@,
    }
}

/// The name `stack` gets in `path`.
pub open spec fn stack_name(stack: Stack) -> Seq<char> {
    match stack {
        Stack::Hadoop => "hadoop"@,
        Stack::Spark => "spark"@,
    }
}

/// The commands that download the tarball of `stack` at `version` and
/// unpack it as `path/hadoop` (or `path/spark`), replacing what was there.
pub fn download_cmds(stack: Stack, version: &str, path: &str) -> (r: Vec<Cmd>)
    ensures
        r.len() == 4,
        r@[0].cmd@ == "wget -O /tmp/"@ + stack_name(stack) + ".tgz "@ + tarball_url(stack, version@),
        r@[1].cmd@ == "tar xvzf /tmp/"@ + stack_name(stack) + ".tgz"@,
        r@[2].cmd@ == "rm -rf "@ + path@ + "/"@ + stack_name(stack),
        r@[3].cmd@ == "mv "@ + unpacked_dir(stack, version@) + " "@ + path@ + "/"@ + stack_name(stack),
        forall|i: int| 0 <= i < 4 ==> (#[trigger] r@[i]).cwd is None && !r@[i].use_bash && !r@[i].allow_error,
{
    proof {
        reveal_strlit("VERSION");
    }
    let (name, template) = match stack {
        Stack::Hadoop => ("hadoop", HADOOP_TARBALL_URL_TEMPLATE),
        Stack::Spark => ("spark", SPARK_TARBALL_URL_TEMPLATE),
    };
    let mut url = owned(APACHE_HADOOP_MIRROR);
    let tail = replace_str(template, "VERSION", version);
    push_str(&mut url, tail.as_str());

    let mut c0 = owned("wget -O /tmp/");
    push_str(&mut c0, name);
    push_str(&mut c0, ".tgz ");
    push_str(&mut c0, url.as_str());
    let mut c1 = owned("tar xvzf /tmp/");
    push_str(&mut c1, name);
    push_str(&mut c1, ".tgz");
    let mut c2 = owned("rm -rf ");
    push_str(&mut c2, path);
    push_str(&mut c2, "/");
    push_str(&mut c2, name);
    let mut c3 = owned("mv ");
    match stack {
        Stack::Hadoop => {
            push_str(&mut c3, "hadoop-");
            push_str(&mut c3, version);
        },
        Stack::Spark => {
            push_str(&mut c3, "spark-");
            push_str(&mut c3, version);
            push_str(&mut c3, "-bin-without-hadoop");
        },
    }
    push_str(&mut c3, " ");
    push_str(&mut c3, path);
    push_str(&mut c3, "/");
    push_str(&mut c3, name);

    let mut r: Vec<Cmd> = Vec::new();
    r.push(Cmd::new(c0));
    r.push(Cmd::new(c1));
    r.push(Cmd::new(c2));
    r.push(Cmd::new(c3));
    r
}

} // verus!
