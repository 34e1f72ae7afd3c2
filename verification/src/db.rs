//! The database a site gets: the server it is created on, the connection
//! string for that server, and the statements that create and drop it.
use vstd::prelude::*;
use crate::text::{concat, push_str};

verus! {

/// The kinds of database server.
pub enum DbDriver {
    Mysql,
    Postgres,
    Sqlite,
}

/// Where and as whom to connect to a database server.
pub struct DbConfig<'a> {
    pub driver: DbDriver,
    pub host: &'a str,
    pub port: u16,
    pub user: &'a str,
    pub pass: &'a str,
}

/// The local MySQL server, as `root` with the password `pass`.
pub fn get_default_config(pass: &str) -> (r: DbConfig<'_>)
    ensures
        r.driver is Mysql,
        r.host@ == "127.0.0.1"@,
        r.port == 3306,
        r.user@ == "root"@,
        r.pass@ == pass@,
{
    DbConfig { driver: DbDriver::Mysql, host: "127.0.0.1", port: 3306, user: "root", pass }
}

/// The decimal digit character for `d` (below ten).
pub open spec fn digit_char(d: int) -> char {
    (48 + d) as char
}

/// The decimal numeral of `n`, without leading zeros.
pub open spec fn decimal(n: nat) -> Seq<char>
    decreases n,
{
    if n < 10 {
        seq![digit_char(n as int)]
    } else {
        decimal(n / 10).push(digit_char((n % 10) as int))
    }
}

/// The number a string of decimal digits stands for.
pub open spec fn digits_value(s: Seq<char>) -> int
    decreases s.len(),
{
    if s.len() == 0 {
        0
    } else {
        10 * digits_value(s.drop_last()) + ((s.last() as int) - 48)
    }
}

/// The numeral of `n` is made of decimal digits, stands for `n`, and starts
/// with `0` only when it is `0`.
pub proof fn lemma_decimal_reads_back(n: nat)
    ensures
        decimal(n).len() > 0,
        forall|i: int| 0 <= i < decimal(n).len() ==> '0' <= #[trigger] decimal(n)[i] <= '9',
        digits_value(decimal(n)) == n,
        decimal(n)[0] == '0' ==> n == 0,
    decreases n,
{
    if n < 10 {
        assert(decimal(n) =~= seq![digit_char(n as int)]);
        assert(decimal(n).drop_last() =~= Seq::<char>::empty());
        assert(digit_char(n as int) as int == 48 + n);
        assert(digits_value(decimal(n)) == 10 * digits_value(Seq::<char>::empty()) + ((decimal(
            n,
        ).last() as int) - 48));
    } else {
        lemma_decimal_reads_back(n / 10);
        let d = decimal(n / 10);
        assert(decimal(n) == d.push(digit_char((n % 10) as int)));
        assert(decimal(n).drop_last() =~= d);
        assert forall|i: int| 0 <= i < decimal(n).len() implies '0' <= #[trigger] decimal(n)[i]
            <= '9' by {
            if i < d.len() {
                assert(decimal(n)[i] == d[i]);
            }
        }
        assert(decimal(n)[0] == d[0]);
        assert(digit_char((n % 10) as int) as int == 48 + n % 10);
        assert(n == 10 * (n / 10) + n % 10);
    }
}

/// Appends the decimal numeral of `n` to `out`.
fn push_decimal(out: &mut String, n: u16)
    ensures
        final(out)@ == old(out)@ + decimal(n as nat),
    decreases n,
{
    if n >= 10 {
        push_decimal(out, n / 10);
    }
    let d = (n % 10) as u8;
    let c = (48u8 + d) as char;
    assert(c == digit_char((n % 10) as int));
    out.push(c);
    assert(decimal(n as nat) == if n < 10 {
        seq![digit_char(n as int)]
    } else {
        decimal((n / 10) as nat).push(digit_char((n % 10) as int))
    });
}

/// The connection string for `config`: `user:pass@tcp(host:port)/`.
pub open spec fn dsn_of(user: Seq<char>, pass: Seq<char>, host: Seq<char>, port: u16) -> Seq<
    char,
> {
    user + ":"@ + pass + "@tcp("@ + host + ":"@ + decimal(port as nat) + ")/"@
}

/// The connection string for `config`.
pub fn dsn(config: &DbConfig) -> (r: String)
    ensures
        r@ == dsn_of(config.user@, config.pass@, config.host@, config.port),
{
    let mut r = concat(config.user, ":");
    push_str(&mut r, config.pass);
    push_str(&mut r, "@tcp(");
    push_str(&mut r, config.host);
    push_str(&mut r, ":");
    push_decimal(&mut r, config.port);
    push_str(&mut r, ")/");
    r
}

/// The statement that creates the database `name`.
pub fn create_database_statement(name: &str) -> (r: String)
    ensures
        r@ == "CREATE DATABASE "@ + name@,
{
    concat("CREATE DATABASE ", name)
}

/// The statement that drops the database `name`.
pub fn drop_database_statement(name: &str) -> (r: String)
    ensures
        r@ == "DROP DATABASE "@ + name@,
{
    concat("DROP DATABASE ", name)
}

} // verus!
