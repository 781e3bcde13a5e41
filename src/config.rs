//! Run configuration: the server to fetch from and the local download policy.
use vstd::prelude::*;
use vstd::string::*;
use crate::text::{all_digits, decimal, push_separator, push_decimal};

verus! {

#[derive(Debug)]
pub struct ServerConfig {
    pub host: String,
    pub username: String,
    pub password: String,
    pub port: u16,
}

#[derive(Debug)]
pub struct DownloadConfig {
    pub num_threads: usize,
    pub base_path: String,
    pub organize_by_time: bool,
    pub keep_original_structure: bool,
}

#[derive(Debug)]
pub struct Config {
    pub server: ServerConfig,
    pub download: DownloadConfig,
}

impl Default for Config {
    /// A template to be edited: placeholder credentials, port 22, four
    /// workers, files organised by time under `./himawari_data`.
    fn default() -> (r: Config)
        ensures
            r.server.host@ == "your_server.com"@,
            r.server.username@ == "your_username"@,
            r.server.password@ == "your_password"@,
            r.server.port == 22,
            r.download.num_threads == 4,
            r.download.base_path@ == "./himawari_data"@,
            r.download.organize_by_time,
            !r.download.keep_original_structure,
    {
        Config {
            server: ServerConfig {
                host: String::from_str("your_server.com"),
                username: String::from_str("your_username"),
                password: String::from_str("your_password"),
                port: 22,
            },
            download: DownloadConfig {
                num_threads: 4,
                base_path: String::from_str("./himawari_data"),
                organize_by_time: true,
                keep_original_structure: false,
            },
        }
    }
}

/// The value of an ASCII decimal digit.
pub open spec fn digit_value(c: char) -> nat {
    ((c as u32) - ('0' as u32)) as nat
}

/// The value of a string of decimal digits.
pub open spec fn digits_value(s: Seq<char>) -> nat
    decreases s.len(),
{
    if s.len() == 0 {
        0
    } else {
        digits_value(s.drop_last()) * 10 + digit_value(s.last())
    }
}

/// The value of the text of an unsigned integer as `str::parse` reads it:
/// an optional `+` followed by one or more ASCII digits, nothing else.
pub open spec fn unsigned_text_value(s: Seq<char>) -> Option<nat> {
    let d = if s.len() > 0 && s[0] == '+' {
        s.drop_first()
    } else {
        s
    };
    if d.len() > 0 && all_digits(d) {
        Some(digits_value(d))
    } else {
        None
    }
}

/// Relies on `str::parse::<u16>`: an optional `+` and decimal digits whose
/// value fits; anything else (signs, spaces, overflow, empty text) fails.
#[verifier::external_body]
fn parse_u16(s: &str) -> (r: Option<u16>)
    ensures
        r == match unsigned_text_value(s@) {
            Some(v) => if v <= u16::MAX {
                Some(v as u16)
            } else {
                None::<u16>
            },
            None => None::<u16>,
        },
{
    s.parse::<u16>().ok()
}

/// Relies on `str::parse::<usize>`: an optional `+` and decimal digits
/// whose value fits; anything else (signs, spaces, overflow, empty text)
/// fails.
#[verifier::external_body]
fn parse_usize(s: &str) -> (r: Option<usize>)
    ensures
        r == match unsigned_text_value(s@) {
            Some(v) => if v <= usize::MAX {
                Some(v as usize)
            } else {
                None::<usize>
            },
            None => None::<usize>,
        },
{
    s.parse::<usize>().ok()
}

impl Config {
    /// The configuration from the answers of an interactive setup (each
    /// already trimmed). An empty port means 22, an empty worker count 4 and
    /// an empty directory `./himawari_data`; files are organised by time.
    pub fn from_answers(
        host: &str,
        port: &str,
        username: &str,
        password: &str,
        num_threads: &str,
        base_path: &str,
    ) -> (r: Result<Config, String>)
        ensures
            port@.len() > 0 && !(unsigned_text_value(port@) matches Some(v) && v <= u16::MAX) ==> (
            r matches Err(m) && m@ == "无效的端口号"@),
            (port@.len() == 0 || (unsigned_text_value(port@) matches Some(v) && v <= u16::MAX))
                && num_threads@.len() > 0 && !(unsigned_text_value(num_threads@) matches Some(v)
                && v <= usize::MAX) ==> (r matches Err(m) && m@ == "无效的线程数"@),
            r matches Ok(c) ==> {
                &&& c.server.host@ == host@
                &&& c.server.username@ == username@
                &&& c.server.password@ == password@
                &&& c.server.port == if port@.len() == 0 {
                    22
                } else {
                    unsigned_text_value(port@)->0 as u16
                }
                &&& c.download.num_threads == if num_threads@.len() == 0 {
                    4
                } else {
                    unsigned_text_value(num_threads@)->0 as usize
                }
                &&& c.download.base_path@ == if base_path@.len() == 0 {
                    "./himawari_data"@
                } else {
                    base_path@
                }
                &&& c.download.organize_by_time
                &&& !c.download.keep_original_structure
            },
            r is Ok <==> (port@.len() == 0 || (unsigned_text_value(port@) matches Some(v) && v
                <= u16::MAX)) && (num_threads@.len() == 0 || (unsigned_text_value(
                num_threads@,
            ) matches Some(v) && v <= usize::MAX)),
    {
        let port_value: u16 = if port.is_empty() {
            22
        } else {
            match parse_u16(port) {
                Some(v) => v,
                None => return Err(String::from_str("无效的端口号")),
            }
        };
        let threads_value: usize = if num_threads.is_empty() {
            4
        } else {
            match parse_usize(num_threads) {
                Some(v) => v,
                None => return Err(String::from_str("无效的线程数")),
            }
        };
        let base = if base_path.is_empty() {
            String::from_str("./himawari_data")
        } else {
            String::from_str(base_path)
        };
        Ok(
            Config {
                server: ServerConfig {
                    host: String::from_str(host),
                    username: String::from_str(username),
                    password: String::from_str(password),
                    port: port_value,
                },
                download: DownloadConfig {
                    num_threads: threads_value,
                    base_path: base,
                    organize_by_time: true,
                    keep_original_structure: false,
                },
            },
        )
    }

    /// Checks, in this order, that the host, user name and password are
    /// given and that there is at least one worker; the error names the
    /// first check that fails.
    pub fn validate(&self) -> (r: Result<(), String>)
        ensures
            r is Ok <==> (self.server.host@.len() > 0 && self.server.username@.len() > 0
                && self.server.password@.len() > 0 && self.download.num_threads > 0),
            self.server.host@.len() == 0 ==> (r matches Err(m) && m@
                == "服务器地址不能为空"@),
            self.server.host@.len() > 0 && self.server.username@.len() == 0 ==> (r matches Err(m)
                && m@ == "用户名不能为空"@),
            self.server.host@.len() > 0 && self.server.username@.len() > 0
                && self.server.password@.len() == 0 ==> (r matches Err(m) && m@
                == "密码不能为空"@),
            self.server.host@.len() > 0 && self.server.username@.len() > 0
                && self.server.password@.len() > 0 && self.download.num_threads == 0 ==> (r matches Err(
                m,
            ) && m@ == "线程数必须大于0"@),
    {
        if self.server.host.as_str().is_empty() {
            return Err(String::from_str("服务器地址不能为空"));
        }
        if self.server.username.as_str().is_empty() {
            return Err(String::from_str("用户名不能为空"));
        }
        if self.server.password.as_str().is_empty() {
            return Err(String::from_str("密码不能为空"));
        }
        if self.download.num_threads == 0 {
            return Err(String::from_str("线程数必须大于0"));
        }
        Ok(())
    }

    /// `host:port`.
    pub fn get_host_with_port(&self) -> (r: String)
        ensures
            r@ == self.server.host@ + seq![':'] + decimal(self.server.port as nat),
    {
        let mut out = self.server.host.clone();
        push_separator(&mut out, ':');
        push_decimal(&mut out, self.server.port as u32);
        out
    }
}

} // verus!
