use vstd::prelude::*;

verus! {

/// The settings of the worker, fixed at startup.
#[derive(Debug, Clone)]
pub struct Config {
    pub redis_url: String,
    pub mongo_url: String,
    pub mongo_db: String,
    pub metrics_port: u16,
    /// Base flush interval, in seconds.
    pub flush_interval: u64,
    /// Base batch size.
    pub batch_size: usize,
}

pub const DEFAULT_METRICS_PORT: u16 = 8080;

pub const DEFAULT_FLUSH_INTERVAL: u64 = 5;

pub const DEFAULT_BATCH_SIZE: usize = 1000;

pub open spec fn or_default<T>(v: Option<T>, default: T) -> T {
    match v {
        Some(x) => x,
        None => default,
    }
}

pub open spec fn text_or_default(v: Option<String>, default: Seq<char>) -> Seq<char> {
    match v {
        Some(s) => s@,
        None => default,
    }
}

fn text_or(v: Option<String>, default: &str) -> (r: String)
    ensures
        r@ == text_or_default(v, default@),
{
    match v {
        Some(s) => s,
        None => default.to_owned(),
    }
}

impl Config {
    /// The settings from the values that were given, each missing one
    /// replaced by its default.
    pub fn with_defaults(
        redis_url: Option<String>,
        mongo_url: Option<String>,
        mongo_db: Option<String>,
        metrics_port: Option<u16>,
        flush_interval: Option<u64>,
        batch_size: Option<usize>,
    ) -> (c: Config)
        ensures
            c.redis_url@ == text_or_default(redis_url, "redis://127.0.0.1/"@),
            c.mongo_url@ == text_or_default(mongo_url, "mongodb://127.0.0.1:27017"@),
            c.mongo_db@ == text_or_default(mongo_db, "discord_logs"@),
            c.metrics_port == or_default(metrics_port, DEFAULT_METRICS_PORT),
            c.flush_interval == or_default(flush_interval, DEFAULT_FLUSH_INTERVAL),
            c.batch_size == or_default(batch_size, DEFAULT_BATCH_SIZE),
    {
        Config {
            redis_url: text_or(redis_url, "redis://127.0.0.1/"),
            mongo_url: text_or(mongo_url, "mongodb://127.0.0.1:27017"),
            mongo_db: text_or(mongo_db, "discord_logs"),
            metrics_port: match metrics_port {
                Some(p) => p,
                None => DEFAULT_METRICS_PORT,
            },
            flush_interval: match flush_interval {
                Some(i) => i,
                None => DEFAULT_FLUSH_INTERVAL,
            },
            batch_size: match batch_size {
                Some(b) => b,
                None => DEFAULT_BATCH_SIZE,
            },
        }
    }
}

/// The categories of log records; each has its own source queue and
/// destination collection.
#[derive(PartialEq, Eq, Structural, Clone, Copy, Debug)]
pub enum Category {
    Events,
    Guardian,
    Join,
}

/// The queue that failed batches are quarantined in, shared by all categories.
pub const DEAD_LETTER_QUEUE: &'static str = "logs:failed";

pub const SECONDS_PER_DAY: u64 = 86_400;

pub open spec fn ttl_days_of(c: Category) -> nat {
    match c {
        Category::Events => 14,
        Category::Guardian => 14,
        Category::Join => 3,
    }
}

/// The byte that marks a dead-letter entry with its destination.
pub open spec fn tag_of(c: Category) -> u8 {
    match c {
        Category::Events => 101,
        Category::Guardian => 103,
        Category::Join => 106,
    }
}

pub open spec fn category_of_tag(t: u8) -> Option<Category> {
    if t == 101 {
        Some(Category::Events)
    } else if t == 103 {
        Some(Category::Guardian)
    } else if t == 106 {
        Some(Category::Join)
    } else {
        None
    }
}

impl Category {
    /// The tag byte of the category (`e`, `g` or `j`).
    pub fn tag(&self) -> (r: u8)
        ensures
            r == tag_of(*self),
            category_of_tag(r) == Some(*self),
    {
        match self {
            Category::Events => 101,
            Category::Guardian => 103,
            Category::Join => 106,
        }
    }

    /// The category that a tag byte marks, if any.
    pub fn from_tag(t: u8) -> (r: Option<Category>)
        ensures
            r == category_of_tag(t),
    {
        if t == 101 {
            Some(Category::Events)
        } else if t == 103 {
            Some(Category::Guardian)
        } else if t == 106 {
            Some(Category::Join)
        } else {
            None
        }
    }

    /// The source queue of the category.
    pub fn queue(&self) -> (r: &'static str)
        ensures
            r@ == match *self {
                Category::Events => "logs:events"@,
                Category::Guardian => "logs:guardian"@,
                Category::Join => "logs:join"@,
            },
    {
        match self {
            Category::Events => "logs:events",
            Category::Guardian => "logs:guardian",
            Category::Join => "logs:join",
        }
    }

    /// The destination collection of the category.
    pub fn collection(&self) -> (r: &'static str)
        ensures
            r@ == match *self {
                Category::Events => "events"@,
                Category::Guardian => "guardianLogs"@,
                Category::Join => "joinLogs"@,
            },
    {
        match self {
            Category::Events => "events",
            Category::Guardian => "guardianLogs",
            Category::Join => "joinLogs",
        }
    }

    /// The timestamp field that the collection's expiry index is keyed on.
    pub fn ttl_field(&self) -> (r: &'static str)
        ensures
            r@ == match *self {
                Category::Events => "loggedAt"@,
                _ => "createdAt"@,
            },
    {
        match self {
            Category::Events => "loggedAt",
            _ => "createdAt",
        }
    }

    /// How long a record of the category is kept, in seconds.
    pub fn ttl_seconds(&self) -> (r: u64)
        ensures
            r == ttl_days_of(*self) * SECONDS_PER_DAY,
    {
        match self {
            Category::Events => 14 * SECONDS_PER_DAY,
            Category::Guardian => 14 * SECONDS_PER_DAY,
            Category::Join => 3 * SECONDS_PER_DAY,
        }
    }

    pub fn all() -> (r: [Category; 3])
        ensures
            r@ == seq![Category::Events, Category::Guardian, Category::Join],
    {
        [Category::Events, Category::Guardian, Category::Join]
    }
}

} // verus!
