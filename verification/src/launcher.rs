//! What the proxy client is started with, and where the application keeps
//! its files.

use vstd::prelude::*;
use vstd::string::*;
use crate::config::{SsrConfig, SsrConfigView};
use crate::text::views;

verus! {

/// The arguments that the proxy client is started with for a profile:
/// one flag and its value for the server address `server`, the remote
/// port, the local port, the local bind address, the password, the method,
/// the idle timeout, the obfuscator and its parameter, the protocol and its
/// parameter, and the pid file.
pub open spec fn client_args_view(
    config: SsrConfigView,
    server: Seq<char>,
    pid_file: Seq<char>,
) -> Seq<Seq<char>> {
    seq![
        "-s"@,
        server,
        "-p"@,
        config.remote_port,
        "-l"@,
        config.local_port,
        "-b"@,
        config.local_addr,
        "-k"@,
        config.password,
        "-m"@,
        config.method,
        "-t"@,
        config.timeout,
        "-o"@,
        config.obfs,
        "-g"@,
        config.obfsparam,
        "-O"@,
        config.protocol,
        "-G"@,
        config.protoparam,
        "-f"@,
        pid_file,
    ]
}

/// The address that a host and a port are resolved as: the two with a
/// colon between them.
pub open spec fn endpoint_view(host: Seq<char>, port: Seq<char>) -> Seq<char> {
    host + ":"@ + port
}

/// The directory of the application's files below the home directory
/// `home`, or the same path relative to the working directory where no
/// home directory is known.
pub open spec fn config_dir_view(home: Option<Seq<char>>) -> Seq<char> {
    match home {
        Some(h) => h + "/.config/ssr-gtk"@,
        None => ".config/ssr-gtk"@,
    }
}

/// The arguments that the proxy client is started with for `config`, with
/// `server` as the resolved address of the remote host.
pub fn client_args(config: &SsrConfig, server: &str, pid_file: &str) -> (args: Vec<String>)
    ensures
        views(args@) == client_args_view(config@, server@, pid_file@),
{
    let mut args: Vec<String> = Vec::new();
    args.push(String::from_str("-s"));
    args.push(server.to_owned());
    args.push(String::from_str("-p"));
    args.push(config.remote_port.clone());
    args.push(String::from_str("-l"));
    args.push(config.local_port.clone());
    args.push(String::from_str("-b"));
    args.push(config.local_addr.clone());
    args.push(String::from_str("-k"));
    args.push(config.password.clone());
    args.push(String::from_str("-m"));
    args.push(config.method.clone());
    args.push(String::from_str("-t"));
    args.push(config.timeout.clone());
    args.push(String::from_str("-o"));
    args.push(config.obfs.clone());
    args.push(String::from_str("-g"));
    args.push(config.obfsparam.clone());
    args.push(String::from_str("-O"));
    args.push(config.protocol.clone());
    args.push(String::from_str("-G"));
    args.push(config.protoparam.clone());
    args.push(String::from_str("-f"));
    args.push(pid_file.to_owned());
    assert(views(args@) =~= client_args_view(config@, server@, pid_file@));
    args
}

/// The address to resolve for a host and a port.
pub fn endpoint(host: &str, port: &str) -> (address: String)
    ensures
        address@ == endpoint_view(host@, port@),
{
    let mut address = host.to_owned();
    address.append(":");
    address.append(port);
    address
}

/// The directory of the application's files.
pub fn config_dir(home: Option<&str>) -> (dir: String)
    ensures
        dir@ == config_dir_view(
            match home {
                Some(h) => Some(h@),
                None => None,
            },
        ),
{
    match home {
        Some(h) => h.to_owned().concat("/.config/ssr-gtk"),
        None => String::from_str(".config/ssr-gtk"),
    }
}

/// The pid file of the proxy client in the directory `dir`.
pub fn pid_file(dir: &str) -> (path: String)
    ensures
        path@ == dir@ + "/pid.txt"@,
{
    dir.to_owned().concat("/pid.txt")
}

/// The place of the document store in the directory `dir`.
pub fn store_path(dir: &str) -> (path: String)
    ensures
        path@ == dir@ + "/db"@,
{
    dir.to_owned().concat("/db")
}

/// The file that a captured QR code is written to in the directory `dir`.
pub fn qrcode_file(dir: &str) -> (path: String)
    ensures
        path@ == dir@ + "/qrcode.png"@,
{
    dir.to_owned().concat("/qrcode.png")
}

/// Tells from the outcome of a look into the process table whether the
/// proxy client runs: the query has to have succeeded and to have listed a
/// process.
pub fn is_alive(succeeded: bool, listed: &[u8]) -> (alive: bool)
    ensures
        alive == (succeeded && listed@.len() > 0),
{
    succeeded && listed.len() > 0
}

} // verus!
