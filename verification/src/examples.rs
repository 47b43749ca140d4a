//! Rewrite recipes: for every rule, the anti-pattern and how to write it in
//! cleaner Effect. The single source for `explain`, the rule export, agent fix
//! payloads, and the docs site.
use vstd::prelude::*;
use crate::diagnostics::RuleMeta;
use crate::rules::{catalog, cross_file_catalog, rule_catalog};

use crate::text::{chars_eq_str, chars_of};

verus! {

/// A rule's anti-pattern (`bad`) and its rewrite (`good`).
#[derive(Debug, Clone, Copy, PartialEq, Eq)]
pub struct RuleExample {
    pub bad: &'static str,
    pub good: &'static str,
}

/// The recipes of one block of rule ids, in catalog order.
pub open spec fn recipes_0(rule: Seq<char>) -> Option<(Seq<char>, Seq<char>)> {
    if rule == "require-yield-star"@ {
        Some(("const user = yield getUser(id)"@, "const user = yield* getUser(id)"@))
    } else if rule == "no-try-catch-in-gen"@ {
        Some(("Effect.gen(function* () {\n  try {\n    return yield* fetchUser(id)\n  } catch (e) {\n    return null\n  }\n})"@, "fetchUser(id).pipe(\n  Effect.catchTag(\"UserNotFound\", () => Effect.succeed(null))\n)"@))
    } else if rule == "no-try-finally-in-gen"@ {
        Some(("Effect.gen(function* () {\n  const fiber = yield* Effect.fork(poller)\n  try {\n    return yield* job\n  } finally {\n    yield* Fiber.interrupt(fiber)\n  }\n})"@, "job.pipe(Effect.ensuring(Fiber.interrupt(fiber)))\n// or: Effect.race(job, poller) / Effect.acquireRelease"@))
    } else if rule == "no-throw-in-effect"@ {
        Some(("Effect.gen(function* () {\n  if (!valid) throw new Error(\"invalid input\")\n})"@, "Effect.gen(function* () {\n  if (!valid) return yield* new InvalidInput({ input })\n})"@))
    } else if rule == "no-run-inside-effect"@ {
        Some(("Effect.gen(function* () {\n  const result = Effect.runSync(computeThing())\n})"@, "Effect.gen(function* () {\n  const result = yield* computeThing()\n})"@))
    } else if rule == "schema-class-self-mismatch"@ {
        Some(("class Wrong extends Schema.Class<Account>(\"Wrong\")({ id: Schema.String }) {}"@, "class Wrong extends Schema.Class<Wrong>(\"Wrong\")({ id: Schema.String }) {}"@))
    } else if rule == "no-constructor-override-in-schema-class"@ {
        Some(("class User extends Schema.Class<User>(\"User\")({ id: Schema.String }) {\n  constructor() { super({ id: \"0\" }) }\n}"@, "class User extends Schema.Class<User>(\"User\")({ id: Schema.String }) {\n  static empty = () => User.make({ id: \"0\" })\n}"@))
    } else if rule == "no-orDie-to-silence-errors"@ {
        Some(("loadConfig.pipe(Effect.orDie)"@, "loadConfig.pipe(Effect.catchTag(\"ConfigError\", () => Effect.succeed(defaults)))"@))
    } else if rule == "no-async-callback-in-effect-combinators"@ {
        Some(("Effect.map(user, async (u) => await enrich(u))"@, "Effect.flatMap(user, (u) => Effect.tryPromise(() => enrich(u)))"@))
    } else if rule == "no-then-in-sync"@ {
        Some(("Effect.sync(() => {\n  fetchData().then((d) => use(d))\n})"@, "Effect.tryPromise(() => fetchData()).pipe(Effect.map(use))"@))
    } else {
        None
    }
}

fn lookup_0(rule: &[char]) -> (found: Option<RuleExample>)
    ensures
        match found {
            Some(e) => recipes_0(rule@) == Some((e.bad@, e.good@)),
            None => recipes_0(rule@) is None,
        },
{
    if chars_eq_str(rule, "require-yield-star") {
        return Some(RuleExample {
            bad: "const user = yield getUser(id)",
            good: "const user = yield* getUser(id)",
        });
    }
    if chars_eq_str(rule, "no-try-catch-in-gen") {
        return Some(RuleExample {
            bad: "Effect.gen(function* () {\n  try {\n    return yield* fetchUser(id)\n  } catch (e) {\n    return null\n  }\n})",
            good: "fetchUser(id).pipe(\n  Effect.catchTag(\"UserNotFound\", () => Effect.succeed(null))\n)",
        });
    }
    if chars_eq_str(rule, "no-try-finally-in-gen") {
        return Some(RuleExample {
            bad: "Effect.gen(function* () {\n  const fiber = yield* Effect.fork(poller)\n  try {\n    return yield* job\n  } finally {\n    yield* Fiber.interrupt(fiber)\n  }\n})",
            good: "job.pipe(Effect.ensuring(Fiber.interrupt(fiber)))\n// or: Effect.race(job, poller) / Effect.acquireRelease",
        });
    }
    if chars_eq_str(rule, "no-throw-in-effect") {
        return Some(RuleExample {
            bad: "Effect.gen(function* () {\n  if (!valid) throw new Error(\"invalid input\")\n})",
            good: "Effect.gen(function* () {\n  if (!valid) return yield* new InvalidInput({ input })\n})",
        });
    }
    if chars_eq_str(rule, "no-run-inside-effect") {
        return Some(RuleExample {
            bad: "Effect.gen(function* () {\n  const result = Effect.runSync(computeThing())\n})",
            good: "Effect.gen(function* () {\n  const result = yield* computeThing()\n})",
        });
    }
    if chars_eq_str(rule, "schema-class-self-mismatch") {
        return Some(RuleExample {
            bad: "class Wrong extends Schema.Class<Account>(\"Wrong\")({ id: Schema.String }) {}",
            good: "class Wrong extends Schema.Class<Wrong>(\"Wrong\")({ id: Schema.String }) {}",
        });
    }
    if chars_eq_str(rule, "no-constructor-override-in-schema-class") {
        return Some(RuleExample {
            bad: "class User extends Schema.Class<User>(\"User\")({ id: Schema.String }) {\n  constructor() { super({ id: \"0\" }) }\n}",
            good: "class User extends Schema.Class<User>(\"User\")({ id: Schema.String }) {\n  static empty = () => User.make({ id: \"0\" })\n}",
        });
    }
    if chars_eq_str(rule, "no-orDie-to-silence-errors") {
        return Some(RuleExample {
            bad: "loadConfig.pipe(Effect.orDie)",
            good: "loadConfig.pipe(Effect.catchTag(\"ConfigError\", () => Effect.succeed(defaults)))",
        });
    }
    if chars_eq_str(rule, "no-async-callback-in-effect-combinators") {
        return Some(RuleExample {
            bad: "Effect.map(user, async (u) => await enrich(u))",
            good: "Effect.flatMap(user, (u) => Effect.tryPromise(() => enrich(u)))",
        });
    }
    if chars_eq_str(rule, "no-then-in-sync") {
        return Some(RuleExample {
            bad: "Effect.sync(() => {\n  fetchData().then((d) => use(d))\n})",
            good: "Effect.tryPromise(() => fetchData()).pipe(Effect.map(use))",
        });
    }
    None
}

/// The recipes of one block of rule ids, in catalog order.
pub open spec fn recipes_1(rule: Seq<char>) -> Option<(Seq<char>, Seq<char>)> {
    if rule == "no-promise-all-in-effect"@ {
        Some(("Effect.tryPromise(() => Promise.all(ids.map(fetchUser)))"@, "Effect.forEach(ids, (id) => Effect.tryPromise(() => fetchUser(id)), {\n  concurrency: 5,\n})"@))
    } else if rule == "no-runsync-on-async-effect"@ {
        Some(("Effect.runSync(Effect.promise(() => fetch(url)))"@, "await Effect.runPromise(Effect.promise(() => fetch(url)))"@))
    } else if rule == "no-map-returning-effect"@ {
        Some(("Effect.map(user, (u) => Effect.log(u.name)) // log never runs"@, "Effect.tap(user, (u) => Effect.log(u.name))"@))
    } else if rule == "no-runcollect-on-infinite-stream"@ {
        Some(("Stream.forever(poll).pipe(Stream.runCollect)"@, "Stream.forever(poll).pipe(Stream.take(100), Stream.runCollect)\n// or Stream.runDrain when results are not needed"@))
    } else if rule == "no-object-literal-comparison"@ {
        Some(("selected.includes({ id: 1, name: \"Paul\" }) // always false"@, "selected.some((u) => Equal.equals(u, Data.struct({ id: 1, name: \"Paul\" })))"@))
    } else if rule == "no-catchall-to-null"@ {
        Some(("getUser(id).pipe(Effect.catchAll(() => Effect.succeed(null)))"@, "getUser(id).pipe(\n  Effect.catchTag(\"UserNotFound\", () => Effect.succeed(null))\n)"@))
    } else if rule == "no-string-errors"@ {
        Some(("Effect.fail(\"Something went wrong!\")"@, "class QueryError extends Data.TaggedError(\"QueryError\")<{ cause: unknown }> {}\nEffect.fail(new QueryError({ cause }))"@))
    } else if rule == "prefer-config-redacted"@ {
        Some(("const apiKey = Config.string(\"API_KEY\")"@, "const apiKey = Config.redacted(\"API_KEY\")"@))
    } else if rule == "prefer-catch-tag"@ {
        Some(("Effect.catchAll((e) =>\n  e._tag === \"NotFound\" ? Effect.succeed(0) : Effect.fail(e)\n)"@, "Effect.catchTag(\"NotFound\", () => Effect.succeed(0))"@))
    } else if rule == "catch-to-map-error"@ {
        Some(("Effect.catchAll((e) => Effect.fail(new WrappedError({ cause: e })))"@, "Effect.mapError((e) => new WrappedError({ cause: e }))"@))
    } else {
        None
    }
}

fn lookup_1(rule: &[char]) -> (found: Option<RuleExample>)
    ensures
        match found {
            Some(e) => recipes_1(rule@) == Some((e.bad@, e.good@)),
            None => recipes_1(rule@) is None,
        },
{
    if chars_eq_str(rule, "no-promise-all-in-effect") {
        return Some(RuleExample {
            bad: "Effect.tryPromise(() => Promise.all(ids.map(fetchUser)))",
            good: "Effect.forEach(ids, (id) => Effect.tryPromise(() => fetchUser(id)), {\n  concurrency: 5,\n})",
        });
    }
    if chars_eq_str(rule, "no-runsync-on-async-effect") {
        return Some(RuleExample {
            bad: "Effect.runSync(Effect.promise(() => fetch(url)))",
            good: "await Effect.runPromise(Effect.promise(() => fetch(url)))",
        });
    }
    if chars_eq_str(rule, "no-map-returning-effect") {
        return Some(RuleExample {
            bad: "Effect.map(user, (u) => Effect.log(u.name)) // log never runs",
            good: "Effect.tap(user, (u) => Effect.log(u.name))",
        });
    }
    if chars_eq_str(rule, "no-runcollect-on-infinite-stream") {
        return Some(RuleExample {
            bad: "Stream.forever(poll).pipe(Stream.runCollect)",
            good: "Stream.forever(poll).pipe(Stream.take(100), Stream.runCollect)\n// or Stream.runDrain when results are not needed",
        });
    }
    if chars_eq_str(rule, "no-object-literal-comparison") {
        return Some(RuleExample {
            bad: "selected.includes({ id: 1, name: \"Paul\" }) // always false",
            good: "selected.some((u) => Equal.equals(u, Data.struct({ id: 1, name: \"Paul\" })))",
        });
    }
    if chars_eq_str(rule, "no-catchall-to-null") {
        return Some(RuleExample {
            bad: "getUser(id).pipe(Effect.catchAll(() => Effect.succeed(null)))",
            good: "getUser(id).pipe(\n  Effect.catchTag(\"UserNotFound\", () => Effect.succeed(null))\n)",
        });
    }
    if chars_eq_str(rule, "no-string-errors") {
        return Some(RuleExample {
            bad: "Effect.fail(\"Something went wrong!\")",
            good: "class QueryError extends Data.TaggedError(\"QueryError\")<{ cause: unknown }> {}\nEffect.fail(new QueryError({ cause }))",
        });
    }
    if chars_eq_str(rule, "prefer-config-redacted") {
        return Some(RuleExample {
            bad: "const apiKey = Config.string(\"API_KEY\")",
            good: "const apiKey = Config.redacted(\"API_KEY\")",
        });
    }
    if chars_eq_str(rule, "prefer-catch-tag") {
        return Some(RuleExample {
            bad: "Effect.catchAll((e) =>\n  e._tag === \"NotFound\" ? Effect.succeed(0) : Effect.fail(e)\n)",
            good: "Effect.catchTag(\"NotFound\", () => Effect.succeed(0))",
        });
    }
    if chars_eq_str(rule, "catch-to-map-error") {
        return Some(RuleExample {
            bad: "Effect.catchAll((e) => Effect.fail(new WrappedError({ cause: e })))",
            good: "Effect.mapError((e) => new WrappedError({ cause: e }))",
        });
    }
    None
}

/// The recipes of one block of rule ids, in catalog order.
pub open spec fn recipes_2(rule: Seq<char>) -> Option<(Seq<char>, Seq<char>)> {
    if rule == "prefer-effect-void"@ {
        Some(("Effect.succeed(undefined)"@, "Effect.void"@))
    } else if rule == "prefer-as-void"@ {
        Some(("effect.pipe(Effect.map(() => undefined))"@, "effect.pipe(Effect.asVoid)"@))
    } else if rule == "prefer-flatmap-over-map-flatten"@ {
        Some(("effect.pipe(Effect.map(toEffect), Effect.flatten)"@, "effect.pipe(Effect.flatMap(toEffect))"@))
    } else if rule == "no-unnecessary-pipe"@ {
        Some(("const value = effect.pipe()"@, "const value = effect"@))
    } else if rule == "no-unnecessary-gen"@ {
        Some(("Effect.gen(function* () {\n  return yield* fetchUser(id)\n})"@, "fetchUser(id)"@))
    } else if rule == "no-unnecessary-fail-of-yieldable"@ {
        Some(("return yield* Effect.fail(new NotFound({ id }))"@, "return yield* new NotFound({ id })"@))
    } else if rule == "no-nested-gen-yield"@ {
        Some(("Effect.gen(function* () {\n  const user = yield* Effect.gen(function* () {\n    return yield* repo.byId(id)\n  })\n})"@, "Effect.gen(function* () {\n  const user = yield* repo.byId(id)\n})"@))
    } else if rule == "no-effect-fn-iife"@ {
        Some(("yield* Effect.fn(function* () { ... })()"@, "yield* Effect.gen(function* () { ... })"@))
    } else if rule == "no-unnecessary-pipe-chain"@ {
        Some(("value.pipe(Effect.map(f)).pipe(Effect.flatMap(g))"@, "value.pipe(Effect.map(f), Effect.flatMap(g))"@))
    } else if rule == "no-return-effect-in-gen"@ {
        Some(("Effect.gen(function* () {\n  return Effect.succeed(1) // success value is an Effect!\n})"@, "Effect.gen(function* () {\n  return yield* Effect.succeed(1)\n})"@))
    } else {
        None
    }
}

fn lookup_2(rule: &[char]) -> (found: Option<RuleExample>)
    ensures
        match found {
            Some(e) => recipes_2(rule@) == Some((e.bad@, e.good@)),
            None => recipes_2(rule@) is None,
        },
{
    if chars_eq_str(rule, "prefer-effect-void") {
        return Some(RuleExample {
            bad: "Effect.succeed(undefined)",
            good: "Effect.void",
        });
    }
    if chars_eq_str(rule, "prefer-as-void") {
        return Some(RuleExample {
            bad: "effect.pipe(Effect.map(() => undefined))",
            good: "effect.pipe(Effect.asVoid)",
        });
    }
    if chars_eq_str(rule, "prefer-flatmap-over-map-flatten") {
        return Some(RuleExample {
            bad: "effect.pipe(Effect.map(toEffect), Effect.flatten)",
            good: "effect.pipe(Effect.flatMap(toEffect))",
        });
    }
    if chars_eq_str(rule, "no-unnecessary-pipe") {
        return Some(RuleExample {
            bad: "const value = effect.pipe()",
            good: "const value = effect",
        });
    }
    if chars_eq_str(rule, "no-unnecessary-gen") {
        return Some(RuleExample {
            bad: "Effect.gen(function* () {\n  return yield* fetchUser(id)\n})",
            good: "fetchUser(id)",
        });
    }
    if chars_eq_str(rule, "no-unnecessary-fail-of-yieldable") {
        return Some(RuleExample {
            bad: "return yield* Effect.fail(new NotFound({ id }))",
            good: "return yield* new NotFound({ id })",
        });
    }
    if chars_eq_str(rule, "no-nested-gen-yield") {
        return Some(RuleExample {
            bad: "Effect.gen(function* () {\n  const user = yield* Effect.gen(function* () {\n    return yield* repo.byId(id)\n  })\n})",
            good: "Effect.gen(function* () {\n  const user = yield* repo.byId(id)\n})",
        });
    }
    if chars_eq_str(rule, "no-effect-fn-iife") {
        return Some(RuleExample {
            bad: "yield* Effect.fn(function* () { ... })()",
            good: "yield* Effect.gen(function* () { ... })",
        });
    }
    if chars_eq_str(rule, "no-unnecessary-pipe-chain") {
        return Some(RuleExample {
            bad: "value.pipe(Effect.map(f)).pipe(Effect.flatMap(g))",
            good: "value.pipe(Effect.map(f), Effect.flatMap(g))",
        });
    }
    if chars_eq_str(rule, "no-return-effect-in-gen") {
        return Some(RuleExample {
            bad: "Effect.gen(function* () {\n  return Effect.succeed(1) // success value is an Effect!\n})",
            good: "Effect.gen(function* () {\n  return yield* Effect.succeed(1)\n})",
        });
    }
    None
}

/// The recipes of one block of rule ids, in catalog order.
pub open spec fn recipes_3(rule: Seq<char>) -> Option<(Seq<char>, Seq<char>)> {
    if rule == "redundant-schema-tag-identifier"@ {
        Some(("class NotFound extends Schema.TaggedError<NotFound>(\"NotFound\")(\"NotFound\", {}) {}"@, "class NotFound extends Schema.TaggedError<NotFound>()(\"NotFound\", {}) {}"@))
    } else if rule == "no-effect-do-notation"@ {
        Some(("Effect.Do.pipe(\n  Effect.bind(\"user\", () => getUser(id)),\n  Effect.bind(\"posts\", ({ user }) => getPosts(user))\n)"@, "Effect.gen(function* () {\n  const user = yield* getUser(id)\n  const posts = yield* getPosts(user)\n  return { user, posts }\n})"@))
    } else if rule == "prefer-clock-service"@ {
        Some(("Effect.gen(function* () {\n  const now = Date.now()\n})"@, "Effect.gen(function* () {\n  const now = yield* Clock.currentTimeMillis\n})"@))
    } else if rule == "prefer-random-service"@ {
        Some(("Effect.sync(() => Math.random())"@, "Random.next"@))
    } else if rule == "prefer-effect-logging"@ {
        Some(("Effect.gen(function* () {\n  console.log(\"user created\", user)\n})"@, "Effect.gen(function* () {\n  yield* Effect.logInfo(\"user created\").pipe(Effect.annotateLogs({ user }))\n})"@))
    } else if rule == "prefer-effect-timers"@ {
        Some(("Effect.sync(() => setTimeout(poll, 5000))"@, "poll.pipe(Effect.delay(\"5 seconds\"), Effect.forever)"@))
    } else if rule == "prefer-platform-fetch"@ {
        Some(("Effect.tryPromise(() => fetch(\"https://api.example.com/users\"))"@, "HttpClient.get(\"https://api.example.com/users\")\n// typed errors, tracing, interruption built in"@))
    } else if rule == "prefer-config-module"@ {
        Some(("Effect.gen(function* () {\n  const port = process.env.PORT\n})"@, "Effect.gen(function* () {\n  const port = yield* Config.integer(\"PORT\")\n})"@))
    } else if rule == "prefer-schema-over-json"@ {
        Some(("const data = JSON.parse(raw) // any, throws"@, "const data = yield* decodeUser(raw) // Schema.fromJsonString(User)"@))
    } else if rule == "prefer-decode-effect"@ {
        Some(("Effect.gen(function* () {\n  const user = Schema.decodeUnknownSync(User)(input) // throws\n})"@, "Effect.gen(function* () {\n  const user = yield* decodeUser(input) // Schema.decodeUnknownEffect(User)\n})"@))
    } else {
        None
    }
}

fn lookup_3(rule: &[char]) -> (found: Option<RuleExample>)
    ensures
        match found {
            Some(e) => recipes_3(rule@) == Some((e.bad@, e.good@)),
            None => recipes_3(rule@) is None,
        },
{
    if chars_eq_str(rule, "redundant-schema-tag-identifier") {
        return Some(RuleExample {
            bad: "class NotFound extends Schema.TaggedError<NotFound>(\"NotFound\")(\"NotFound\", {}) {}",
            good: "class NotFound extends Schema.TaggedError<NotFound>()(\"NotFound\", {}) {}",
        });
    }
    if chars_eq_str(rule, "no-effect-do-notation") {
        return Some(RuleExample {
            bad: "Effect.Do.pipe(\n  Effect.bind(\"user\", () => getUser(id)),\n  Effect.bind(\"posts\", ({ user }) => getPosts(user))\n)",
            good: "Effect.gen(function* () {\n  const user = yield* getUser(id)\n  const posts = yield* getPosts(user)\n  return { user, posts }\n})",
        });
    }
    if chars_eq_str(rule, "prefer-clock-service") {
        return Some(RuleExample {
            bad: "Effect.gen(function* () {\n  const now = Date.now()\n})",
            good: "Effect.gen(function* () {\n  const now = yield* Clock.currentTimeMillis\n})",
        });
    }
    if chars_eq_str(rule, "prefer-random-service") {
        return Some(RuleExample {
            bad: "Effect.sync(() => Math.random())",
            good: "Random.next",
        });
    }
    if chars_eq_str(rule, "prefer-effect-logging") {
        return Some(RuleExample {
            bad: "Effect.gen(function* () {\n  console.log(\"user created\", user)\n})",
            good: "Effect.gen(function* () {\n  yield* Effect.logInfo(\"user created\").pipe(Effect.annotateLogs({ user }))\n})",
        });
    }
    if chars_eq_str(rule, "prefer-effect-timers") {
        return Some(RuleExample {
            bad: "Effect.sync(() => setTimeout(poll, 5000))",
            good: "poll.pipe(Effect.delay(\"5 seconds\"), Effect.forever)",
        });
    }
    if chars_eq_str(rule, "prefer-platform-fetch") {
        return Some(RuleExample {
            bad: "Effect.tryPromise(() => fetch(\"https://api.example.com/users\"))",
            good: "HttpClient.get(\"https://api.example.com/users\")\n// typed errors, tracing, interruption built in",
        });
    }
    if chars_eq_str(rule, "prefer-config-module") {
        return Some(RuleExample {
            bad: "Effect.gen(function* () {\n  const port = process.env.PORT\n})",
            good: "Effect.gen(function* () {\n  const port = yield* Config.integer(\"PORT\")\n})",
        });
    }
    if chars_eq_str(rule, "prefer-schema-over-json") {
        return Some(RuleExample {
            bad: "const data = JSON.parse(raw) // any, throws",
            good: "const data = yield* decodeUser(raw) // Schema.fromJsonString(User)",
        });
    }
    if chars_eq_str(rule, "prefer-decode-effect") {
        return Some(RuleExample {
            bad: "Effect.gen(function* () {\n  const user = Schema.decodeUnknownSync(User)(input) // throws\n})",
            good: "Effect.gen(function* () {\n  const user = yield* decodeUser(input) // Schema.decodeUnknownEffect(User)\n})",
        });
    }
    None
}

/// The recipes of one block of rule ids, in catalog order.
pub open spec fn recipes_4(rule: Seq<char>) -> Option<(Seq<char>, Seq<char>)> {
    if rule == "prefer-effect-fn"@ {
        Some(("const loadUser = (id: string) =>\n  Effect.gen(function* () {\n    return yield* repo.byId(id)\n  })"@, "const loadUser = Effect.fn(\"UserRepo.loadUser\")(function* (id: string) {\n  return yield* repo.byId(id)\n})"@))
    } else if rule == "prefer-tagged-error-classes"@ {
        Some(("class HttpError extends Error {}"@, "class HttpError extends Schema.TaggedErrorClass<HttpError>()(\"HttpError\", {\n  status: Schema.Number,\n}) {}"@))
    } else if rule == "meaningful-span-names"@ {
        Some(("Effect.fn(\"run\")(function* () { ... })"@, "Effect.fn(\"OrderService.placeOrder\")(function* () { ... })"@))
    } else if rule == "prefer-it-effect"@ {
        Some(("it(\"creates a user\", () => Effect.runPromise(program))"@, "it.effect(\"creates a user\", () => program)"@))
    } else if rule == "prefer-node-effect-counterparts"@ {
        Some(("import { readFileSync } from \"node:fs\""@, "import { FileSystem } from \"@effect/platform\"\n// const fs = yield* FileSystem.FileSystem; yield* fs.readFileString(path)"@))
    } else if rule == "no-tag-string-comparison"@ {
        Some(("if (result._tag === \"Left\") { ... }"@, "if (Either.isLeft(result)) { ... }"@))
    } else if rule == "prefer-match-over-tag-switch"@ {
        Some(("switch (event._tag) {\n  case \"OrderPlaced\": ...\n  case \"OrderShipped\": ...\n}"@, "Match.valueTags(event, {\n  OrderPlaced: (e) => ...,\n  OrderShipped: (e) => ...,\n}) // exhaustive"@))
    } else if rule == "prefer-duration-over-raw-millis"@ {
        Some(("Effect.sleep(2000) // ms? s?"@, "Effect.sleep(\"2 seconds\")"@))
    } else if rule == "prefer-succeed-over-sync-literal"@ {
        Some(("Effect.sync(() => 42)"@, "Effect.succeed(42)"@))
    } else if rule == "prefer-structured-logging-args"@ {
        Some(("Effect.log(`Results: ${JSON.stringify(results)}`)"@, "Effect.log(\"results computed\").pipe(Effect.annotateLogs({ results }))"@))
    } else {
        None
    }
}

fn lookup_4(rule: &[char]) -> (found: Option<RuleExample>)
    ensures
        match found {
            Some(e) => recipes_4(rule@) == Some((e.bad@, e.good@)),
            None => recipes_4(rule@) is None,
        },
{
    if chars_eq_str(rule, "prefer-effect-fn") {
        return Some(RuleExample {
            bad: "const loadUser = (id: string) =>\n  Effect.gen(function* () {\n    return yield* repo.byId(id)\n  })",
            good: "const loadUser = Effect.fn(\"UserRepo.loadUser\")(function* (id: string) {\n  return yield* repo.byId(id)\n})",
        });
    }
    if chars_eq_str(rule, "prefer-tagged-error-classes") {
        return Some(RuleExample {
            bad: "class HttpError extends Error {}",
            good: "class HttpError extends Schema.TaggedErrorClass<HttpError>()(\"HttpError\", {\n  status: Schema.Number,\n}) {}",
        });
    }
    if chars_eq_str(rule, "meaningful-span-names") {
        return Some(RuleExample {
            bad: "Effect.fn(\"run\")(function* () { ... })",
            good: "Effect.fn(\"OrderService.placeOrder\")(function* () { ... })",
        });
    }
    if chars_eq_str(rule, "prefer-it-effect") {
        return Some(RuleExample {
            bad: "it(\"creates a user\", () => Effect.runPromise(program))",
            good: "it.effect(\"creates a user\", () => program)",
        });
    }
    if chars_eq_str(rule, "prefer-node-effect-counterparts") {
        return Some(RuleExample {
            bad: "import { readFileSync } from \"node:fs\"",
            good: "import { FileSystem } from \"@effect/platform\"\n// const fs = yield* FileSystem.FileSystem; yield* fs.readFileString(path)",
        });
    }
    if chars_eq_str(rule, "no-tag-string-comparison") {
        return Some(RuleExample {
            bad: "if (result._tag === \"Left\") { ... }",
            good: "if (Either.isLeft(result)) { ... }",
        });
    }
    if chars_eq_str(rule, "prefer-match-over-tag-switch") {
        return Some(RuleExample {
            bad: "switch (event._tag) {\n  case \"OrderPlaced\": ...\n  case \"OrderShipped\": ...\n}",
            good: "Match.valueTags(event, {\n  OrderPlaced: (e) => ...,\n  OrderShipped: (e) => ...,\n}) // exhaustive",
        });
    }
    if chars_eq_str(rule, "prefer-duration-over-raw-millis") {
        return Some(RuleExample {
            bad: "Effect.sleep(2000) // ms? s?",
            good: "Effect.sleep(\"2 seconds\")",
        });
    }
    if chars_eq_str(rule, "prefer-succeed-over-sync-literal") {
        return Some(RuleExample {
            bad: "Effect.sync(() => 42)",
            good: "Effect.succeed(42)",
        });
    }
    if chars_eq_str(rule, "prefer-structured-logging-args") {
        return Some(RuleExample {
            bad: "Effect.log(`Results: ${JSON.stringify(results)}`)",
            good: "Effect.log(\"results computed\").pipe(Effect.annotateLogs({ results }))",
        });
    }
    None
}

/// The recipes of one block of rule ids, in catalog order.
pub open spec fn recipes_5(rule: Seq<char>) -> Option<(Seq<char>, Seq<char>)> {
    if rule == "prefer-json-response-helper"@ {
        Some(("HttpServerResponse.text(JSON.stringify(user))"@, "HttpServerResponse.json(user)"@))
    } else if rule == "require-typed-catch-in-try"@ {
        Some(("Effect.tryPromise(() => fetch(url)) // UnknownException"@, "Effect.tryPromise({\n  try: () => fetch(url),\n  catch: (cause) => new FetchError({ cause }),\n})"@))
    } else if rule == "prefer-timeout-over-race-sleep"@ {
        Some(("Effect.race(fetchData, Effect.sleep(\"2 seconds\"))"@, "fetchData.pipe(Effect.timeout(\"2 seconds\"))"@))
    } else if rule == "no-fork-then-immediate-join"@ {
        Some(("const fiber = yield* Effect.fork(task)\nconst result = yield* Fiber.join(fiber)"@, "const result = yield* task"@))
    } else if rule == "avoid-long-combinator-chains"@ {
        Some(("step1().pipe(\n  Effect.flatMap(step2),\n  Effect.flatMap(step3),\n  Effect.flatMap(step4),\n  Effect.flatMap(step5)\n)"@, "Effect.gen(function* () {\n  const a = yield* step1()\n  const b = yield* step2(a)\n  const c = yield* step3(b)\n  return yield* step5(yield* step4(c))\n})"@))
    } else if rule == "no-chained-provides"@ {
        Some(("program.pipe(Effect.provide(DbLayer), Effect.provide(LogLayer))"@, "program.pipe(Effect.provide(Layer.mergeAll(DbLayer, LogLayer)))"@))
    } else if rule == "no-manual-sql-transactions"@ {
        Some(("yield* sql`BEGIN`\nyield* insertOrder\nyield* sql`COMMIT`"@, "yield* insertOrder.pipe(sql.withTransaction)"@))
    } else if rule == "retry-only-retryable"@ {
        Some(("fetchData.pipe(Effect.retry(Schedule.exponential(\"100 millis\")))"@, "fetchData.pipe(Effect.retry({\n  schedule: Schedule.exponential(\"100 millis\"),\n  while: (e) => e._tag === \"TransientError\",\n}))"@))
    } else if rule == "no-layer-mergeall-megalist"@ {
        Some(("Layer.mergeAll(A, B, C, D, E, F, G, H, I, J, K, L)"@, "const CoreInfra = Layer.mergeAll(A, B, C)\nconst UserModule = Layer.mergeAll(D, E)\nLayer.mergeAll(CoreInfra, UserModule, ...)"@))
    } else if rule == "add-jitter-to-backoff"@ {
        Some(("Schedule.exponential(\"100 millis\")"@, "Schedule.exponential(\"100 millis\").pipe(Schedule.jittered)"@))
    } else {
        None
    }
}

fn lookup_5(rule: &[char]) -> (found: Option<RuleExample>)
    ensures
        match found {
            Some(e) => recipes_5(rule@) == Some((e.bad@, e.good@)),
            None => recipes_5(rule@) is None,
        },
{
    if chars_eq_str(rule, "prefer-json-response-helper") {
        return Some(RuleExample {
            bad: "HttpServerResponse.text(JSON.stringify(user))",
            good: "HttpServerResponse.json(user)",
        });
    }
    if chars_eq_str(rule, "require-typed-catch-in-try") {
        return Some(RuleExample {
            bad: "Effect.tryPromise(() => fetch(url)) // UnknownException",
            good: "Effect.tryPromise({\n  try: () => fetch(url),\n  catch: (cause) => new FetchError({ cause }),\n})",
        });
    }
    if chars_eq_str(rule, "prefer-timeout-over-race-sleep") {
        return Some(RuleExample {
            bad: "Effect.race(fetchData, Effect.sleep(\"2 seconds\"))",
            good: "fetchData.pipe(Effect.timeout(\"2 seconds\"))",
        });
    }
    if chars_eq_str(rule, "no-fork-then-immediate-join") {
        return Some(RuleExample {
            bad: "const fiber = yield* Effect.fork(task)\nconst result = yield* Fiber.join(fiber)",
            good: "const result = yield* task",
        });
    }
    if chars_eq_str(rule, "avoid-long-combinator-chains") {
        return Some(RuleExample {
            bad: "step1().pipe(\n  Effect.flatMap(step2),\n  Effect.flatMap(step3),\n  Effect.flatMap(step4),\n  Effect.flatMap(step5)\n)",
            good: "Effect.gen(function* () {\n  const a = yield* step1()\n  const b = yield* step2(a)\n  const c = yield* step3(b)\n  return yield* step5(yield* step4(c))\n})",
        });
    }
    if chars_eq_str(rule, "no-chained-provides") {
        return Some(RuleExample {
            bad: "program.pipe(Effect.provide(DbLayer), Effect.provide(LogLayer))",
            good: "program.pipe(Effect.provide(Layer.mergeAll(DbLayer, LogLayer)))",
        });
    }
    if chars_eq_str(rule, "no-manual-sql-transactions") {
        return Some(RuleExample {
            bad: "yield* sql`BEGIN`\nyield* insertOrder\nyield* sql`COMMIT`",
            good: "yield* insertOrder.pipe(sql.withTransaction)",
        });
    }
    if chars_eq_str(rule, "retry-only-retryable") {
        return Some(RuleExample {
            bad: "fetchData.pipe(Effect.retry(Schedule.exponential(\"100 millis\")))",
            good: "fetchData.pipe(Effect.retry({\n  schedule: Schedule.exponential(\"100 millis\"),\n  while: (e) => e._tag === \"TransientError\",\n}))",
        });
    }
    if chars_eq_str(rule, "no-layer-mergeall-megalist") {
        return Some(RuleExample {
            bad: "Layer.mergeAll(A, B, C, D, E, F, G, H, I, J, K, L)",
            good: "const CoreInfra = Layer.mergeAll(A, B, C)\nconst UserModule = Layer.mergeAll(D, E)\nLayer.mergeAll(CoreInfra, UserModule, ...)",
        });
    }
    if chars_eq_str(rule, "add-jitter-to-backoff") {
        return Some(RuleExample {
            bad: "Schedule.exponential(\"100 millis\")",
            good: "Schedule.exponential(\"100 millis\").pipe(Schedule.jittered)",
        });
    }
    None
}

/// The recipes of one block of rule ids, in catalog order.
pub open spec fn recipes_6(rule: Seq<char>) -> Option<(Seq<char>, Seq<char>)> {
    if rule == "cap-exponential-backoff"@ {
        Some(("Schedule.exponential(\"100 millis\")"@, "Schedule.exponential(\"100 millis\").pipe(\n  Schedule.either(Schedule.spaced(\"10 seconds\"))\n)"@))
    } else if rule == "no-unbounded-concurrency"@ {
        Some(("Effect.forEach(users, notify, { concurrency: \"unbounded\" })"@, "Effect.forEach(users, notify, { concurrency: 10 })"@))
    } else if rule == "hoist-schema-codecs"@ {
        Some(("const parse = (u: unknown) => Schema.decodeUnknownEffect(User)(u)"@, "const decodeUser = Schema.decodeUnknownEffect(User)\nconst parse = (u: unknown) => decodeUser(u)"@))
    } else if rule == "effect-all-missing-concurrency"@ {
        Some(("Effect.all([fetchUser, fetchPosts]) // silently sequential"@, "Effect.all([fetchUser, fetchPosts], { concurrency: \"unbounded\" })"@))
    } else if rule == "stream-mapeffect-missing-concurrency"@ {
        Some(("stream.pipe(Stream.mapEffect(processItem))"@, "stream.pipe(Stream.mapEffect(processItem, { concurrency: 4 }))"@))
    } else if rule == "prefer-queue-bounded"@ {
        Some(("const queue = yield* Queue.unbounded<Job>()"@, "const queue = yield* Queue.bounded<Job>(100) // backpressure"@))
    } else if rule == "no-eager-chunk-stream"@ {
        Some(("Stream.fromChunk(Chunk.fromIterable(bigIterable))"@, "Stream.fromIterable(bigIterable)"@))
    } else if rule == "v4-no-gen-adapter"@ {
        Some(("Effect.gen(function* (_) {\n  const user = yield* _(getUser(id))\n})"@, "Effect.gen(function* () {\n  const user = yield* getUser(id)\n})"@))
    } else if rule == "v4-catch-renames"@ {
        Some(("effect.pipe(Effect.catchAll(handle))"@, "effect.pipe(Effect.catch(handle))"@))
    } else if rule == "v4-fork-renames"@ {
        Some(("yield* Effect.fork(task)"@, "yield* Effect.forkChild(task)"@))
    } else {
        None
    }
}

fn lookup_6(rule: &[char]) -> (found: Option<RuleExample>)
    ensures
        match found {
            Some(e) => recipes_6(rule@) == Some((e.bad@, e.good@)),
            None => recipes_6(rule@) is None,
        },
{
    if chars_eq_str(rule, "cap-exponential-backoff") {
        return Some(RuleExample {
            bad: "Schedule.exponential(\"100 millis\")",
            good: "Schedule.exponential(\"100 millis\").pipe(\n  Schedule.either(Schedule.spaced(\"10 seconds\"))\n)",
        });
    }
    if chars_eq_str(rule, "no-unbounded-concurrency") {
        return Some(RuleExample {
            bad: "Effect.forEach(users, notify, { concurrency: \"unbounded\" })",
            good: "Effect.forEach(users, notify, { concurrency: 10 })",
        });
    }
    if chars_eq_str(rule, "hoist-schema-codecs") {
        return Some(RuleExample {
            bad: "const parse = (u: unknown) => Schema.decodeUnknownEffect(User)(u)",
            good: "const decodeUser = Schema.decodeUnknownEffect(User)\nconst parse = (u: unknown) => decodeUser(u)",
        });
    }
    if chars_eq_str(rule, "effect-all-missing-concurrency") {
        return Some(RuleExample {
            bad: "Effect.all([fetchUser, fetchPosts]) // silently sequential",
            good: "Effect.all([fetchUser, fetchPosts], { concurrency: \"unbounded\" })",
        });
    }
    if chars_eq_str(rule, "stream-mapeffect-missing-concurrency") {
        return Some(RuleExample {
            bad: "stream.pipe(Stream.mapEffect(processItem))",
            good: "stream.pipe(Stream.mapEffect(processItem, { concurrency: 4 }))",
        });
    }
    if chars_eq_str(rule, "prefer-queue-bounded") {
        return Some(RuleExample {
            bad: "const queue = yield* Queue.unbounded<Job>()",
            good: "const queue = yield* Queue.bounded<Job>(100) // backpressure",
        });
    }
    if chars_eq_str(rule, "no-eager-chunk-stream") {
        return Some(RuleExample {
            bad: "Stream.fromChunk(Chunk.fromIterable(bigIterable))",
            good: "Stream.fromIterable(bigIterable)",
        });
    }
    if chars_eq_str(rule, "v4-no-gen-adapter") {
        return Some(RuleExample {
            bad: "Effect.gen(function* (_) {\n  const user = yield* _(getUser(id))\n})",
            good: "Effect.gen(function* () {\n  const user = yield* getUser(id)\n})",
        });
    }
    if chars_eq_str(rule, "v4-catch-renames") {
        return Some(RuleExample {
            bad: "effect.pipe(Effect.catchAll(handle))",
            good: "effect.pipe(Effect.catch(handle))",
        });
    }
    if chars_eq_str(rule, "v4-fork-renames") {
        return Some(RuleExample {
            bad: "yield* Effect.fork(task)",
            good: "yield* Effect.forkChild(task)",
        });
    }
    None
}

/// The recipes of one block of rule ids, in catalog order.
pub open spec fn recipes_7(rule: Seq<char>) -> Option<(Seq<char>, Seq<char>)> {
    if rule == "v4-context-service"@ {
        Some(("class Db extends Context.Tag(\"Db\")<Db, Shape>() {}"@, "class Db extends Context.Service<Db, Shape>()(\"Db\") {}"@))
    } else if rule == "v4-cause-flattened"@ {
        Some(("Cause.isFailType(cause)"@, "Cause.isFailReason(reason) // Cause is a flat reasons array in v4"@))
    } else if rule == "v4-runtime-removed"@ {
        Some(("const runtime = yield* Effect.runtime<R>()"@, "const services = yield* Effect.context<R>()\n// run with Effect.runForkWith(services)"@))
    } else if rule == "v4-scope-provide"@ {
        Some(("Scope.extend(effect, scope)"@, "Scope.provide(effect, scope)"@))
    } else if rule == "v4-layer-scoped-to-effect"@ {
        Some(("Layer.scoped(Tag, acquire)"@, "Layer.effect(Tag, acquire) // v4 Layer.effect handles scoping"@))
    } else if rule == "v4-gen-self-options"@ {
        Some(("Effect.gen(this, function* () { ... })"@, "Effect.gen({ self: this }, function* () { ... })"@))
    } else if rule == "v4-option-renames"@ {
        Some(("Option.fromNullable(value)"@, "Option.fromNullishOr(value)"@))
    } else if rule == "v4-schema-renames"@ {
        Some(("Schema.Union(A, B)\nSchema.Literal(\"a\", \"b\")\nSchema.TaggedError"@, "Schema.Union([A, B])\nSchema.Literals([\"a\", \"b\"])\nSchema.TaggedErrorClass"@))
    } else if rule == "v4-fiberref-removed"@ {
        Some(("import { FiberRef } from \"effect\""@, "import { Context } from \"effect\"\n// Context.Reference for ambient config with defaults"@))
    } else if rule == "v4-package-consolidation"@ {
        Some(("import { HttpClient } from \"@effect/platform\""@, "import { HttpClient } from \"effect/unstable/http\""@))
    } else {
        None
    }
}

fn lookup_7(rule: &[char]) -> (found: Option<RuleExample>)
    ensures
        match found {
            Some(e) => recipes_7(rule@) == Some((e.bad@, e.good@)),
            None => recipes_7(rule@) is None,
        },
{
    if chars_eq_str(rule, "v4-context-service") {
        return Some(RuleExample {
            bad: "class Db extends Context.Tag(\"Db\")<Db, Shape>() {}",
            good: "class Db extends Context.Service<Db, Shape>()(\"Db\") {}",
        });
    }
    if chars_eq_str(rule, "v4-cause-flattened") {
        return Some(RuleExample {
            bad: "Cause.isFailType(cause)",
            good: "Cause.isFailReason(reason) // Cause is a flat reasons array in v4",
        });
    }
    if chars_eq_str(rule, "v4-runtime-removed") {
        return Some(RuleExample {
            bad: "const runtime = yield* Effect.runtime<R>()",
            good: "const services = yield* Effect.context<R>()\n// run with Effect.runForkWith(services)",
        });
    }
    if chars_eq_str(rule, "v4-scope-provide") {
        return Some(RuleExample {
            bad: "Scope.extend(effect, scope)",
            good: "Scope.provide(effect, scope)",
        });
    }
    if chars_eq_str(rule, "v4-layer-scoped-to-effect") {
        return Some(RuleExample {
            bad: "Layer.scoped(Tag, acquire)",
            good: "Layer.effect(Tag, acquire) // v4 Layer.effect handles scoping",
        });
    }
    if chars_eq_str(rule, "v4-gen-self-options") {
        return Some(RuleExample {
            bad: "Effect.gen(this, function* () { ... })",
            good: "Effect.gen({ self: this }, function* () { ... })",
        });
    }
    if chars_eq_str(rule, "v4-option-renames") {
        return Some(RuleExample {
            bad: "Option.fromNullable(value)",
            good: "Option.fromNullishOr(value)",
        });
    }
    if chars_eq_str(rule, "v4-schema-renames") {
        return Some(RuleExample {
            bad: "Schema.Union(A, B)\nSchema.Literal(\"a\", \"b\")\nSchema.TaggedError",
            good: "Schema.Union([A, B])\nSchema.Literals([\"a\", \"b\"])\nSchema.TaggedErrorClass",
        });
    }
    if chars_eq_str(rule, "v4-fiberref-removed") {
        return Some(RuleExample {
            bad: "import { FiberRef } from \"effect\"",
            good: "import { Context } from \"effect\"\n// Context.Reference for ambient config with defaults",
        });
    }
    if chars_eq_str(rule, "v4-package-consolidation") {
        return Some(RuleExample {
            bad: "import { HttpClient } from \"@effect/platform\"",
            good: "import { HttpClient } from \"effect/unstable/http\"",
        });
    }
    None
}

/// The recipes of one block of rule ids, in catalog order.
pub open spec fn recipes_8(rule: Seq<char>) -> Option<(Seq<char>, Seq<char>)> {
    if rule == "v4-unstable-import-awareness"@ {
        Some(("import { HttpApi } from \"effect/unstable/httpapi\""@, "// fine to use — unstable APIs may change in minor releases; pin exactly"@))
    } else if rule == "prefer-abort-signal-passthrough"@ {
        Some(("Effect.tryPromise({\n  try: () => fetch(url),\n  catch: (cause) => new FetchError({ cause }),\n})"@, "Effect.tryPromise({\n  try: (signal) => fetch(url, { signal }), // interruption cancels the request\n  catch: (cause) => new FetchError({ cause }),\n})"@))
    } else if rule == "prefer-gen-over-nested-flatmap"@ {
        Some(("getUser(id).pipe(\n  Effect.flatMap((user) =>\n    getAccount(user).pipe(\n      Effect.flatMap((account) => createInvoice(user, account))\n    )\n  )\n)"@, "Effect.gen(function* () {\n  const user = yield* getUser(id)\n  const account = yield* getAccount(user)\n  return yield* createInvoice(user, account)\n})"@))
    } else if rule == "adopt-async-function"@ {
        Some(("async function loadUser(id: string) {\n  const res = await fetch(`/users/${id}`)\n  return res.json()\n}"@, "const loadUser = Effect.fn(\"loadUser\")(function* (id: string) {\n  const res = yield* Effect.tryPromise({\n    try: () => fetch(`/users/${id}`),\n    catch: (cause) => new FetchError({ cause }),\n  })\n  return yield* Effect.tryPromise(() => res.json())\n})"@))
    } else if rule == "adopt-promise-chain"@ {
        Some(("fetchUser(id).then((user) => enrich(user)).then(save)"@, "Effect.tryPromise(() => fetchUser(id)).pipe(\n  Effect.flatMap((user) => Effect.tryPromise(() => enrich(user))),\n  Effect.flatMap((user) => Effect.tryPromise(() => save(user)))\n)"@))
    } else if rule == "adopt-new-promise"@ {
        Some(("new Promise((resolve, reject) => {\n  socket.once(\"data\", resolve)\n  socket.once(\"error\", reject)\n})"@, "Effect.async<Buffer, SocketError>((resume) => {\n  socket.once(\"data\", (d) => resume(Effect.succeed(d)))\n  socket.once(\"error\", (e) => resume(Effect.fail(new SocketError({ cause: e }))))\n})"@))
    } else if rule == "adopt-promise-all"@ {
        Some(("await Promise.all(ids.map(fetchUser))"@, "yield* Effect.forEach(ids, (id) => fetchUser(id), { concurrency: 10 })"@))
    } else if rule == "adopt-await-in-loop"@ {
        Some(("for (const id of ids) {\n  await processUser(id) // strictly sequential\n}"@, "yield* Effect.forEach(ids, (id) => processUser(id), { concurrency: 5 })"@))
    } else if rule == "prefer-foreach-over-yield-loop"@ {
        Some(("Effect.gen(function* () {\n  for (const id of ids) {\n    yield* processUser(id)\n  }\n})"@, "Effect.forEach(ids, (id) => processUser(id), { concurrency: 5 })\n// or { concurrency: 1 } to stay sequential — but explicit"@))
    } else if rule == "agent-no-if-else-chain"@ {
        Some(("let label\nif (level === \"error\") {\n  label = \"!\"\n} else if (level === \"warn\") {\n  label = \"?\"\n} else {\n  label = \".\"\n}"@, "const label = Match.value(level).pipe(\n  Match.when(\"error\", () => \"!\"),\n  Match.when(\"warn\", () => \"?\"),\n  Match.orElse(() => \".\")\n)"@))
    } else {
        None
    }
}

fn lookup_8(rule: &[char]) -> (found: Option<RuleExample>)
    ensures
        match found {
            Some(e) => recipes_8(rule@) == Some((e.bad@, e.good@)),
            None => recipes_8(rule@) is None,
        },
{
    if chars_eq_str(rule, "v4-unstable-import-awareness") {
        return Some(RuleExample {
            bad: "import { HttpApi } from \"effect/unstable/httpapi\"",
            good: "// fine to use — unstable APIs may change in minor releases; pin exactly",
        });
    }
    if chars_eq_str(rule, "prefer-abort-signal-passthrough") {
        return Some(RuleExample {
            bad: "Effect.tryPromise({\n  try: () => fetch(url),\n  catch: (cause) => new FetchError({ cause }),\n})",
            good: "Effect.tryPromise({\n  try: (signal) => fetch(url, { signal }), // interruption cancels the request\n  catch: (cause) => new FetchError({ cause }),\n})",
        });
    }
    if chars_eq_str(rule, "prefer-gen-over-nested-flatmap") {
        return Some(RuleExample {
            bad: "getUser(id).pipe(\n  Effect.flatMap((user) =>\n    getAccount(user).pipe(\n      Effect.flatMap((account) => createInvoice(user, account))\n    )\n  )\n)",
            good: "Effect.gen(function* () {\n  const user = yield* getUser(id)\n  const account = yield* getAccount(user)\n  return yield* createInvoice(user, account)\n})",
        });
    }
    if chars_eq_str(rule, "adopt-async-function") {
        return Some(RuleExample {
            bad: "async function loadUser(id: string) {\n  const res = await fetch(`/users/${id}`)\n  return res.json()\n}",
            good: "const loadUser = Effect.fn(\"loadUser\")(function* (id: string) {\n  const res = yield* Effect.tryPromise({\n    try: () => fetch(`/users/${id}`),\n    catch: (cause) => new FetchError({ cause }),\n  })\n  return yield* Effect.tryPromise(() => res.json())\n})",
        });
    }
    if chars_eq_str(rule, "adopt-promise-chain") {
        return Some(RuleExample {
            bad: "fetchUser(id).then((user) => enrich(user)).then(save)",
            good: "Effect.tryPromise(() => fetchUser(id)).pipe(\n  Effect.flatMap((user) => Effect.tryPromise(() => enrich(user))),\n  Effect.flatMap((user) => Effect.tryPromise(() => save(user)))\n)",
        });
    }
    if chars_eq_str(rule, "adopt-new-promise") {
        return Some(RuleExample {
            bad: "new Promise((resolve, reject) => {\n  socket.once(\"data\", resolve)\n  socket.once(\"error\", reject)\n})",
            good: "Effect.async<Buffer, SocketError>((resume) => {\n  socket.once(\"data\", (d) => resume(Effect.succeed(d)))\n  socket.once(\"error\", (e) => resume(Effect.fail(new SocketError({ cause: e }))))\n})",
        });
    }
    if chars_eq_str(rule, "adopt-promise-all") {
        return Some(RuleExample {
            bad: "await Promise.all(ids.map(fetchUser))",
            good: "yield* Effect.forEach(ids, (id) => fetchUser(id), { concurrency: 10 })",
        });
    }
    if chars_eq_str(rule, "adopt-await-in-loop") {
        return Some(RuleExample {
            bad: "for (const id of ids) {\n  await processUser(id) // strictly sequential\n}",
            good: "yield* Effect.forEach(ids, (id) => processUser(id), { concurrency: 5 })",
        });
    }
    if chars_eq_str(rule, "prefer-foreach-over-yield-loop") {
        return Some(RuleExample {
            bad: "Effect.gen(function* () {\n  for (const id of ids) {\n    yield* processUser(id)\n  }\n})",
            good: "Effect.forEach(ids, (id) => processUser(id), { concurrency: 5 })\n// or { concurrency: 1 } to stay sequential — but explicit",
        });
    }
    if chars_eq_str(rule, "agent-no-if-else-chain") {
        return Some(RuleExample {
            bad: "let label\nif (level === \"error\") {\n  label = \"!\"\n} else if (level === \"warn\") {\n  label = \"?\"\n} else {\n  label = \".\"\n}",
            good: "const label = Match.value(level).pipe(\n  Match.when(\"error\", () => \"!\"),\n  Match.when(\"warn\", () => \"?\"),\n  Match.orElse(() => \".\")\n)",
        });
    }
    None
}

/// The recipes of one block of rule ids, in catalog order.
pub open spec fn recipes_9(rule: Seq<char>) -> Option<(Seq<char>, Seq<char>)> {
    if rule == "agent-no-ternary"@ {
        Some(("const tone = percent >= 100 ? \"critical\" : percent >= 80 ? \"warning\" : \"neutral\""@, "const tone = Match.value(percent).pipe(\n  Match.when((p) => p >= 100, () => \"critical\"),\n  Match.when((p) => p >= 80, () => \"warning\"),\n  Match.orElse(() => \"neutral\")\n)"@))
    } else if rule == "agent-no-string-equality-guard"@ {
        Some(("if (value.kind === \"user\") {\n  return renderUser(value)\n}"@, "if (isUser(value)) {\n  return renderUser(value)\n}\n// or: Match.value(value).pipe(Match.tag(\"user\", renderUser), ...)"@))
    } else if rule == "agent-no-raw-loop"@ {
        Some(("const rowsByScope = new Map()\nfor (const row of rows) {\n  const list = rowsByScope.get(row.scopeId) ?? []\n  list.push(row)\n  rowsByScope.set(row.scopeId, list)\n}"@, "const rowsByScope = Array.groupBy(rows, (row) => row.scopeId)\n// effectful: yield* Effect.forEach(rows, persistRow, { concurrency: 5 })"@))
    } else if rule == "agent-no-let"@ {
        Some(("let softCeiling = 0\nif (hasSoft) {\n  softCeiling = softCap + freeAllowance\n}"@, "const softCeiling = hasSoft ? softCap + freeAllowance : 0\n// better: const softCeiling = Option.match(soft, { onNone: () => 0, onSome: (c) => c + freeAllowance })"@))
    } else if rule == "agent-duplicate-function"@ {
        Some(("const usageBarFill = (p) => p >= 100 ? red : p >= 80 ? amber : gray\nconst usageText = (p) => p >= 100 ? red : p >= 80 ? amber : gray // copy-paste"@, "const usageTone = (p) => p >= 100 ? red : p >= 80 ? amber : gray\nconst usageBarFill = usageTone\nconst usageText = usageTone"@))
    } else if rule == "agent-no-mutation"@ {
        Some(("let softCeiling = 0\nif (hasSoft) {\n  softCeiling = softCap + freeAllowance // reassigned\n}\npayload.total = softCeiling // mutated in place"@, "const softCeiling = hasSoft ? softCap + freeAllowance : 0\nconst payload = { ...base, total: softCeiling } // derived once, no mutation"@))
    } else if rule == "agent-duplicate-cross-file"@ {
        Some(("// src/billing/format.ts\nexport const formatCredits = (n) => `${Math.round(n)} cr`\n\n// src/ui/Usage.tsx — agent re-created the same helper\nconst formatCredits = (n) => `${Math.round(n)} cr`"@, "// src/billing/format.ts\nexport const formatCredits = (n) => `${Math.round(n)} cr`\n\n// src/ui/Usage.tsx\nimport { formatCredits } from \"../billing/format\""@))
    } else if rule == "agent-near-duplicate-function"@ {
        Some(("// a.ts\nexport const toTone = (p) => { const t = pick(p); return clamp(t) }\n// b.ts — lightly-edited copy\nexport const barTone = (q) => { const v = pick(q); return clamp(v) }"@, "// tone.ts — one source of truth\nexport const tone = (p) => clamp(pick(p))\n// a.ts / b.ts both: import { tone } from \"./tone\""@))
    } else if rule == "agent-similar-function-name"@ {
        Some(("// src/a.ts\nexport const parseConfig = (raw) => Schema.decodeUnknownSync(Config)(raw)\n// src/b.ts — same name, divergent impl\nexport const parseConfig = (raw) => JSON.parse(raw)"@, "// src/config.ts — one canonical parser\nexport const parseConfig = (raw) =>\n  Schema.decodeUnknownEffect(Config)(JSON.parse(raw))"@))
    } else if rule == "agent-similar-shape"@ {
        Some(("// both take (id) and call getUser + decode + log — same job, two routes\nexport const loadUser = (id) => { ... }\nexport const fetchUser = (id) => { ... }"@, "// keep one; derive the other or delete it\nexport const loadUser = (id) => Effect.gen(function* () { ... })\nexport const fetchUser = loadUser"@))
    } else {
        None
    }
}

fn lookup_9(rule: &[char]) -> (found: Option<RuleExample>)
    ensures
        match found {
            Some(e) => recipes_9(rule@) == Some((e.bad@, e.good@)),
            None => recipes_9(rule@) is None,
        },
{
    if chars_eq_str(rule, "agent-no-ternary") {
        return Some(RuleExample {
            bad: "const tone = percent >= 100 ? \"critical\" : percent >= 80 ? \"warning\" : \"neutral\"",
            good: "const tone = Match.value(percent).pipe(\n  Match.when((p) => p >= 100, () => \"critical\"),\n  Match.when((p) => p >= 80, () => \"warning\"),\n  Match.orElse(() => \"neutral\")\n)",
        });
    }
    if chars_eq_str(rule, "agent-no-string-equality-guard") {
        return Some(RuleExample {
            bad: "if (value.kind === \"user\") {\n  return renderUser(value)\n}",
            good: "if (isUser(value)) {\n  return renderUser(value)\n}\n// or: Match.value(value).pipe(Match.tag(\"user\", renderUser), ...)",
        });
    }
    if chars_eq_str(rule, "agent-no-raw-loop") {
        return Some(RuleExample {
            bad: "const rowsByScope = new Map()\nfor (const row of rows) {\n  const list = rowsByScope.get(row.scopeId) ?? []\n  list.push(row)\n  rowsByScope.set(row.scopeId, list)\n}",
            good: "const rowsByScope = Array.groupBy(rows, (row) => row.scopeId)\n// effectful: yield* Effect.forEach(rows, persistRow, { concurrency: 5 })",
        });
    }
    if chars_eq_str(rule, "agent-no-let") {
        return Some(RuleExample {
            bad: "let softCeiling = 0\nif (hasSoft) {\n  softCeiling = softCap + freeAllowance\n}",
            good: "const softCeiling = hasSoft ? softCap + freeAllowance : 0\n// better: const softCeiling = Option.match(soft, { onNone: () => 0, onSome: (c) => c + freeAllowance })",
        });
    }
    if chars_eq_str(rule, "agent-duplicate-function") {
        return Some(RuleExample {
            bad: "const usageBarFill = (p) => p >= 100 ? red : p >= 80 ? amber : gray\nconst usageText = (p) => p >= 100 ? red : p >= 80 ? amber : gray // copy-paste",
            good: "const usageTone = (p) => p >= 100 ? red : p >= 80 ? amber : gray\nconst usageBarFill = usageTone\nconst usageText = usageTone",
        });
    }
    if chars_eq_str(rule, "agent-no-mutation") {
        return Some(RuleExample {
            bad: "let softCeiling = 0\nif (hasSoft) {\n  softCeiling = softCap + freeAllowance // reassigned\n}\npayload.total = softCeiling // mutated in place",
            good: "const softCeiling = hasSoft ? softCap + freeAllowance : 0\nconst payload = { ...base, total: softCeiling } // derived once, no mutation",
        });
    }
    if chars_eq_str(rule, "agent-duplicate-cross-file") {
        return Some(RuleExample {
            bad: "// src/billing/format.ts\nexport const formatCredits = (n) => `${Math.round(n)} cr`\n\n// src/ui/Usage.tsx — agent re-created the same helper\nconst formatCredits = (n) => `${Math.round(n)} cr`",
            good: "// src/billing/format.ts\nexport const formatCredits = (n) => `${Math.round(n)} cr`\n\n// src/ui/Usage.tsx\nimport { formatCredits } from \"../billing/format\"",
        });
    }
    if chars_eq_str(rule, "agent-near-duplicate-function") {
        return Some(RuleExample {
            bad: "// a.ts\nexport const toTone = (p) => { const t = pick(p); return clamp(t) }\n// b.ts — lightly-edited copy\nexport const barTone = (q) => { const v = pick(q); return clamp(v) }",
            good: "// tone.ts — one source of truth\nexport const tone = (p) => clamp(pick(p))\n// a.ts / b.ts both: import { tone } from \"./tone\"",
        });
    }
    if chars_eq_str(rule, "agent-similar-function-name") {
        return Some(RuleExample {
            bad: "// src/a.ts\nexport const parseConfig = (raw) => Schema.decodeUnknownSync(Config)(raw)\n// src/b.ts — same name, divergent impl\nexport const parseConfig = (raw) => JSON.parse(raw)",
            good: "// src/config.ts — one canonical parser\nexport const parseConfig = (raw) =>\n  Schema.decodeUnknownEffect(Config)(JSON.parse(raw))",
        });
    }
    if chars_eq_str(rule, "agent-similar-shape") {
        return Some(RuleExample {
            bad: "// both take (id) and call getUser + decode + log — same job, two routes\nexport const loadUser = (id) => { ... }\nexport const fetchUser = (id) => { ... }",
            good: "// keep one; derive the other or delete it\nexport const loadUser = (id) => Effect.gen(function* () { ... })\nexport const fetchUser = loadUser",
        });
    }
    None
}

/// The recipes of one block of rule ids, in catalog order.
pub open spec fn recipes_10(rule: Seq<char>) -> Option<(Seq<char>, Seq<char>)> {
    if rule == "agent-no-inline-import"@ {
        Some(("const run = async () => {\n  const { parse } = await import(\"./parser\")\n  return parse(input)\n}"@, "import { parse } from \"./parser\"\n\nconst run = () => parse(input)"@))
    } else if rule == "agent-no-any"@ {
        Some(("const handle = (payload: any) => payload.user.id"@, "const Payload = Schema.Struct({ user: Schema.Struct({ id: Schema.String }) })\nconst handle = (payload: unknown) =>\n  Schema.decodeUnknownEffect(Payload)(payload).pipe(Effect.map((p) => p.user.id))"@))
    } else if rule == "agent-no-import-alias"@ {
        Some(("import { formatCredits as fmt } from \"./format\"\nfmt(total)"@, "import { formatCredits } from \"./format\"\nformatCredits(total)"@))
    } else if rule == "agent-no-namespace-import"@ {
        Some(("import * as utils from \"./utils\"\nutils.formatCredits(total)"@, "import { formatCredits } from \"./utils\"\nformatCredits(total)"@))
    } else if rule == "agent-no-try-catch"@ {
        Some(("try {\n  const config = JSON.parse(raw)\n  return config.port\n} catch {\n  return 3000\n}"@, "const port = Effect.try(() => JSON.parse(raw)).pipe(\n  Effect.map((config) => config.port),\n  Effect.orElseSucceed(() => 3000)\n)"@))
    } else if rule == "agent-no-default-export"@ {
        Some(("export default function usageTone(p: number) { ... }"@, "export const usageTone = (p: number) => ..."@))
    } else if rule == "agent-no-as-cast"@ {
        Some(("const user = response.body as User"@, "const user = yield* Schema.decodeUnknownEffect(User)(response.body)"@))
    } else if rule == "agent-no-unbounded-promise-all"@ {
        Some(("await Promise.all(rows.map((row) => persist(row)))"@, "yield* Effect.forEach(rows, persist, { concurrency: 5 })"@))
    } else if rule == "agent-no-loose-equality"@ {
        Some(("if (status == 200) { ... }"@, "if (status === 200) { ... }"@))
    } else if rule == "agent-no-non-null-assertion"@ {
        Some(("const owner = users.find((u) => u.id === id)!"@, "const owner = Array.findFirst(users, (u) => u.id === id) // Option<User>\n// or narrow: if (owner === undefined) return yield* new UserNotFound({ id })"@))
    } else if rule == "agent-no-enum"@ {
        Some(("enum Tone { Critical = \"critical\", Warning = \"warning\" }"@, "const Tone = Schema.Literals([\"critical\", \"warning\"])\ntype Tone = typeof Tone.Type"@))
    } else if rule == "agent-prefer-safe-parse"@ {
        Some(("const config = ConfigSchema.parse(raw)"@, "const result = ConfigSchema.safeParse(raw)\nif (!result.success) return badRequest(result.error)\nconst config = result.data"@))
    } else if rule == "agent-no-inline-type-import"@ {
        Some(("const render = (user: import(\"./model\").User) => user.name"@, "import type { User } from \"./model\"\n\nconst render = (user: User) => user.name"@))
    } else if rule == "agent-no-ts-namespace"@ {
        Some(("namespace Billing {\n  export const rate = 0.2\n}"@, "// billing.ts\nexport const rate = 0.2"@))
    } else {
        None
    }
}

fn lookup_10(rule: &[char]) -> (found: Option<RuleExample>)
    ensures
        match found {
            Some(e) => recipes_10(rule@) == Some((e.bad@, e.good@)),
            None => recipes_10(rule@) is None,
        },
{
    if chars_eq_str(rule, "agent-no-inline-import") {
        return Some(RuleExample {
            bad: "const run = async () => {\n  const { parse } = await import(\"./parser\")\n  return parse(input)\n}",
            good: "import { parse } from \"./parser\"\n\nconst run = () => parse(input)",
        });
    }
    if chars_eq_str(rule, "agent-no-any") {
        return Some(RuleExample {
            bad: "const handle = (payload: any) => payload.user.id",
            good: "const Payload = Schema.Struct({ user: Schema.Struct({ id: Schema.String }) })\nconst handle = (payload: unknown) =>\n  Schema.decodeUnknownEffect(Payload)(payload).pipe(Effect.map((p) => p.user.id))",
        });
    }
    if chars_eq_str(rule, "agent-no-import-alias") {
        return Some(RuleExample {
            bad: "import { formatCredits as fmt } from \"./format\"\nfmt(total)",
            good: "import { formatCredits } from \"./format\"\nformatCredits(total)",
        });
    }
    if chars_eq_str(rule, "agent-no-namespace-import") {
        return Some(RuleExample {
            bad: "import * as utils from \"./utils\"\nutils.formatCredits(total)",
            good: "import { formatCredits } from \"./utils\"\nformatCredits(total)",
        });
    }
    if chars_eq_str(rule, "agent-no-try-catch") {
        return Some(RuleExample {
            bad: "try {\n  const config = JSON.parse(raw)\n  return config.port\n} catch {\n  return 3000\n}",
            good: "const port = Effect.try(() => JSON.parse(raw)).pipe(\n  Effect.map((config) => config.port),\n  Effect.orElseSucceed(() => 3000)\n)",
        });
    }
    if chars_eq_str(rule, "agent-no-default-export") {
        return Some(RuleExample {
            bad: "export default function usageTone(p: number) { ... }",
            good: "export const usageTone = (p: number) => ...",
        });
    }
    if chars_eq_str(rule, "agent-no-as-cast") {
        return Some(RuleExample {
            bad: "const user = response.body as User",
            good: "const user = yield* Schema.decodeUnknownEffect(User)(response.body)",
        });
    }
    if chars_eq_str(rule, "agent-no-unbounded-promise-all") {
        return Some(RuleExample {
            bad: "await Promise.all(rows.map((row) => persist(row)))",
            good: "yield* Effect.forEach(rows, persist, { concurrency: 5 })",
        });
    }
    if chars_eq_str(rule, "agent-no-loose-equality") {
        return Some(RuleExample {
            bad: "if (status == 200) { ... }",
            good: "if (status === 200) { ... }",
        });
    }
    if chars_eq_str(rule, "agent-no-non-null-assertion") {
        return Some(RuleExample {
            bad: "const owner = users.find((u) => u.id === id)!",
            good: "const owner = Array.findFirst(users, (u) => u.id === id) // Option<User>\n// or narrow: if (owner === undefined) return yield* new UserNotFound({ id })",
        });
    }
    if chars_eq_str(rule, "agent-no-enum") {
        return Some(RuleExample {
            bad: "enum Tone { Critical = \"critical\", Warning = \"warning\" }",
            good: "const Tone = Schema.Literals([\"critical\", \"warning\"])\ntype Tone = typeof Tone.Type",
        });
    }
    if chars_eq_str(rule, "agent-prefer-safe-parse") {
        return Some(RuleExample {
            bad: "const config = ConfigSchema.parse(raw)",
            good: "const result = ConfigSchema.safeParse(raw)\nif (!result.success) return badRequest(result.error)\nconst config = result.data",
        });
    }
    if chars_eq_str(rule, "agent-no-inline-type-import") {
        return Some(RuleExample {
            bad: "const render = (user: import(\"./model\").User) => user.name",
            good: "import type { User } from \"./model\"\n\nconst render = (user: User) => user.name",
        });
    }
    if chars_eq_str(rule, "agent-no-ts-namespace") {
        return Some(RuleExample {
            bad: "namespace Billing {\n  export const rate = 0.2\n}",
            good: "// billing.ts\nexport const rate = 0.2",
        });
    }
    None
}

/// The recipes of one block of rule ids, in catalog order.
pub open spec fn recipes_11(rule: Seq<char>) -> Option<(Seq<char>, Seq<char>)> {
    if rule == "agent-no-throw"@ {
        Some(("const load = (id: string) => {\n  if (!id) throw new Error(\"missing id\")\n  return fetchUser(id)\n}"@, "class MissingId extends Data.TaggedError(\"MissingId\") {}\nconst load = (id: string) =>\n  id ? fetchUser(id) : Effect.fail(new MissingId())"@))
    } else if rule == "agent-no-delete"@ {
        Some(("delete payload.password\nreturn payload"@, "const { password, ...rest } = payload\nreturn rest"@))
    } else if rule == "agent-deep-nesting"@ {
        Some(("if (user) {\n  if (user.active) {\n    for (const order of user.orders) {\n      if (order.open) { ship(order) }\n    }\n  }\n}"@, "if (!user?.active) return\nconst open = user.orders.filter((order) => order.open)\nopen.forEach(ship)"@))
    } else if rule == "agent-high-complexity"@ {
        Some(("const price = (item) => {\n  if (item.kind === \"a\") { ... } else if (item.kind === \"b\") { ... }\n  for (...) { if (...) { ... } else { ... } }\n}"@, "const basePrice = Match.type<Item>().pipe(\n  Match.tag(\"a\", priceA),\n  Match.tag(\"b\", priceB),\n  Match.exhaustive\n)\nconst price = (item: Item) => applyDiscounts(basePrice(item))"@))
    } else if rule == "agent-too-many-params"@ {
        Some(("const invoice = (customer, amount, currency, dueDate, notes, taxRate) => ..."@, "const invoice = (input: {\n  customer: Customer\n  amount: number\n  currency: string\n  dueDate: Date\n  notes?: string\n  taxRate: number\n}) => ..."@))
    } else if rule == "agent-deep-relative-import"@ {
        Some(("import { formatCredits } from \"../../../billing/format\""@, "import { formatCredits } from \"@app/billing/format\""@))
    } else if rule == "oop-singleton-to-layer"@ {
        Some(("class Db {\n  private static instance: Db\n  static getInstance() {\n    return (Db.instance ??= new Db())\n  }\n}"@, "class Db extends Context.Tag(\"Db\")<Db, { query: (sql: string) => Effect.Effect<Rows> }>() {}\nconst DbLive = Layer.effect(Db, makeDb)"@))
    } else if rule == "oop-observer-to-pubsub"@ {
        Some(("class Events {\n  private listeners: Array<(e: Event) => void> = []\n  subscribe(l) { this.listeners.push(l) }\n  notify(e) { this.listeners.forEach((l) => l(e)) }\n}"@, "const events = yield* PubSub.unbounded<Event>()\nyield* PubSub.publish(events, event)\nconst feed = Stream.fromPubSub(events)"@))
    } else if rule == "oop-strategy-to-function"@ {
        Some(("interface Pricing { price(item: Item): number }\nclass Retail implements Pricing { price(item) { ... } }\nclass Wholesale implements Pricing { price(item) { ... } }"@, "type Pricing = (item: Item) => number\nconst retail: Pricing = (item) => ...\nconst wholesale: Pricing = (item) => ..."@))
    } else if rule == "oop-visitor-to-match"@ {
        Some(("class AreaVisitor {\n  visitCircle(c) { return Math.PI * c.r ** 2 }\n  visitSquare(s) { return s.side ** 2 }\n}"@, "const area = Match.type<Shape>().pipe(\n  Match.tag(\"Circle\", (c) => Math.PI * c.r ** 2),\n  Match.tag(\"Square\", (s) => s.side ** 2),\n  Match.exhaustive\n)"@))
    } else if rule == "oop-chain-to-catchtag"@ {
        Some(("class CacheHandler {\n  next?: Handler\n  setNext(h) { this.next = h }\n  handle(key) { return this.cache.get(key) ?? this.next?.handle(key) }\n}"@, "const lookup = (key: string) =>\n  fromCache(key).pipe(\n    Effect.catchTag(\"CacheMiss\", () => fromDb(key)),\n    Effect.catchTag(\"NotFound\", () => fromRemote(key))\n  )"@))
    } else if rule == "max-function-parameters"@ {
        Some(("const createUser = (name, email, role, team, locale, timezone) => ..."@, "const createUser = (input: {\n  name: string\n  email: string\n  role: Role\n  team: string\n  locale: string\n  timezone: string\n}) => ..."@))
    } else if rule == "max-nesting-depth"@ {
        Some(("Effect.gen(function* () {\n  if (user) {\n    for (const order of user.orders) {\n      if (order.open) {\n        if (order.total > 0) { yield* charge(order) }\n      }\n    }\n  }\n})"@, "const chargeable = (user: User) =>\n  user.orders.filter((order) => order.open && order.total > 0)\n\nEffect.gen(function* () {\n  if (!user) return\n  yield* Effect.forEach(chargeable(user), charge)\n})"@))
    } else if rule == "high-cognitive-complexity"@ {
        Some(("const route = (req) => {\n  if (req.a) { if (req.b) { ... } else { ... } }\n  else if (req.c) { for (...) { if (...) { ... } } }\n}"@, "const route = Match.type<Request>().pipe(\n  Match.when({ a: true, b: true }, handleAB),\n  Match.when({ a: true }, handleA),\n  Match.when({ c: true }, handleC),\n  Match.orElse(notFound)\n)"@))
    } else if rule == "agent-circular-import"@ {
        Some(("// a.ts\nimport { total } from \"./b\"\nexport const tax = (n) => n * 0.2\n// b.ts\nimport { tax } from \"./a\"\nexport const total = (n) => n + tax(n)"@, "// tax.ts — the shared leaf module\nexport const tax = (n) => n * 0.2\n// a.ts and b.ts both: import { tax } from \"./tax\""@))
    } else {
        None
    }
}

fn lookup_11(rule: &[char]) -> (found: Option<RuleExample>)
    ensures
        match found {
            Some(e) => recipes_11(rule@) == Some((e.bad@, e.good@)),
            None => recipes_11(rule@) is None,
        },
{
    if chars_eq_str(rule, "agent-no-throw") {
        return Some(RuleExample {
            bad: "const load = (id: string) => {\n  if (!id) throw new Error(\"missing id\")\n  return fetchUser(id)\n}",
            good: "class MissingId extends Data.TaggedError(\"MissingId\") {}\nconst load = (id: string) =>\n  id ? fetchUser(id) : Effect.fail(new MissingId())",
        });
    }
    if chars_eq_str(rule, "agent-no-delete") {
        return Some(RuleExample {
            bad: "delete payload.password\nreturn payload",
            good: "const { password, ...rest } = payload\nreturn rest",
        });
    }
    if chars_eq_str(rule, "agent-deep-nesting") {
        return Some(RuleExample {
            bad: "if (user) {\n  if (user.active) {\n    for (const order of user.orders) {\n      if (order.open) { ship(order) }\n    }\n  }\n}",
            good: "if (!user?.active) return\nconst open = user.orders.filter((order) => order.open)\nopen.forEach(ship)",
        });
    }
    if chars_eq_str(rule, "agent-high-complexity") {
        return Some(RuleExample {
            bad: "const price = (item) => {\n  if (item.kind === \"a\") { ... } else if (item.kind === \"b\") { ... }\n  for (...) { if (...) { ... } else { ... } }\n}",
            good: "const basePrice = Match.type<Item>().pipe(\n  Match.tag(\"a\", priceA),\n  Match.tag(\"b\", priceB),\n  Match.exhaustive\n)\nconst price = (item: Item) => applyDiscounts(basePrice(item))",
        });
    }
    if chars_eq_str(rule, "agent-too-many-params") {
        return Some(RuleExample {
            bad: "const invoice = (customer, amount, currency, dueDate, notes, taxRate) => ...",
            good: "const invoice = (input: {\n  customer: Customer\n  amount: number\n  currency: string\n  dueDate: Date\n  notes?: string\n  taxRate: number\n}) => ...",
        });
    }
    if chars_eq_str(rule, "agent-deep-relative-import") {
        return Some(RuleExample {
            bad: "import { formatCredits } from \"../../../billing/format\"",
            good: "import { formatCredits } from \"@app/billing/format\"",
        });
    }
    if chars_eq_str(rule, "oop-singleton-to-layer") {
        return Some(RuleExample {
            bad: "class Db {\n  private static instance: Db\n  static getInstance() {\n    return (Db.instance ??= new Db())\n  }\n}",
            good: "class Db extends Context.Tag(\"Db\")<Db, { query: (sql: string) => Effect.Effect<Rows> }>() {}\nconst DbLive = Layer.effect(Db, makeDb)",
        });
    }
    if chars_eq_str(rule, "oop-observer-to-pubsub") {
        return Some(RuleExample {
            bad: "class Events {\n  private listeners: Array<(e: Event) => void> = []\n  subscribe(l) { this.listeners.push(l) }\n  notify(e) { this.listeners.forEach((l) => l(e)) }\n}",
            good: "const events = yield* PubSub.unbounded<Event>()\nyield* PubSub.publish(events, event)\nconst feed = Stream.fromPubSub(events)",
        });
    }
    if chars_eq_str(rule, "oop-strategy-to-function") {
        return Some(RuleExample {
            bad: "interface Pricing { price(item: Item): number }\nclass Retail implements Pricing { price(item) { ... } }\nclass Wholesale implements Pricing { price(item) { ... } }",
            good: "type Pricing = (item: Item) => number\nconst retail: Pricing = (item) => ...\nconst wholesale: Pricing = (item) => ...",
        });
    }
    if chars_eq_str(rule, "oop-visitor-to-match") {
        return Some(RuleExample {
            bad: "class AreaVisitor {\n  visitCircle(c) { return Math.PI * c.r ** 2 }\n  visitSquare(s) { return s.side ** 2 }\n}",
            good: "const area = Match.type<Shape>().pipe(\n  Match.tag(\"Circle\", (c) => Math.PI * c.r ** 2),\n  Match.tag(\"Square\", (s) => s.side ** 2),\n  Match.exhaustive\n)",
        });
    }
    if chars_eq_str(rule, "oop-chain-to-catchtag") {
        return Some(RuleExample {
            bad: "class CacheHandler {\n  next?: Handler\n  setNext(h) { this.next = h }\n  handle(key) { return this.cache.get(key) ?? this.next?.handle(key) }\n}",
            good: "const lookup = (key: string) =>\n  fromCache(key).pipe(\n    Effect.catchTag(\"CacheMiss\", () => fromDb(key)),\n    Effect.catchTag(\"NotFound\", () => fromRemote(key))\n  )",
        });
    }
    if chars_eq_str(rule, "max-function-parameters") {
        return Some(RuleExample {
            bad: "const createUser = (name, email, role, team, locale, timezone) => ...",
            good: "const createUser = (input: {\n  name: string\n  email: string\n  role: Role\n  team: string\n  locale: string\n  timezone: string\n}) => ...",
        });
    }
    if chars_eq_str(rule, "max-nesting-depth") {
        return Some(RuleExample {
            bad: "Effect.gen(function* () {\n  if (user) {\n    for (const order of user.orders) {\n      if (order.open) {\n        if (order.total > 0) { yield* charge(order) }\n      }\n    }\n  }\n})",
            good: "const chargeable = (user: User) =>\n  user.orders.filter((order) => order.open && order.total > 0)\n\nEffect.gen(function* () {\n  if (!user) return\n  yield* Effect.forEach(chargeable(user), charge)\n})",
        });
    }
    if chars_eq_str(rule, "high-cognitive-complexity") {
        return Some(RuleExample {
            bad: "const route = (req) => {\n  if (req.a) { if (req.b) { ... } else { ... } }\n  else if (req.c) { for (...) { if (...) { ... } } }\n}",
            good: "const route = Match.type<Request>().pipe(\n  Match.when({ a: true, b: true }, handleAB),\n  Match.when({ a: true }, handleA),\n  Match.when({ c: true }, handleC),\n  Match.orElse(notFound)\n)",
        });
    }
    if chars_eq_str(rule, "agent-circular-import") {
        return Some(RuleExample {
            bad: "// a.ts\nimport { total } from \"./b\"\nexport const tax = (n) => n * 0.2\n// b.ts\nimport { tax } from \"./a\"\nexport const total = (n) => n + tax(n)",
            good: "// tax.ts — the shared leaf module\nexport const tax = (n) => n * 0.2\n// a.ts and b.ts both: import { tax } from \"./tax\"",
        });
    }
    None
}

/// The recipe of a rule id, if it has one.
pub open spec fn recipe(rule: Seq<char>) -> Option<(Seq<char>, Seq<char>)> {
    if recipes_0(rule) is Some {
        recipes_0(rule)
    } else if recipes_1(rule) is Some {
        recipes_1(rule)
    } else if recipes_2(rule) is Some {
        recipes_2(rule)
    } else if recipes_3(rule) is Some {
        recipes_3(rule)
    } else if recipes_4(rule) is Some {
        recipes_4(rule)
    } else if recipes_5(rule) is Some {
        recipes_5(rule)
    } else if recipes_6(rule) is Some {
        recipes_6(rule)
    } else if recipes_7(rule) is Some {
        recipes_7(rule)
    } else if recipes_8(rule) is Some {
        recipes_8(rule)
    } else if recipes_9(rule) is Some {
        recipes_9(rule)
    } else if recipes_10(rule) is Some {
        recipes_10(rule)
    } else if recipes_11(rule) is Some {
        recipes_11(rule)
    } else {
        None
    }
}

/// The rewrite recipe for a rule id.
pub fn example_for(rule: &str) -> (example: Option<RuleExample>)
    ensures
        match example {
            Some(e) => recipe(rule@) == Some((e.bad@, e.good@)),
            None => recipe(rule@) is None,
        },
        (exists|i: int| 0 <= i < catalog().len() && #[trigger] catalog()[i].id@ == rule@) ==> example is Some,
{
    proof {
        lemma_every_rule_has_recipe();
    }
    let id = chars_of(rule);
    let found = lookup_0(&id);
    if found.is_some() {
        return found;
    }
    let found = lookup_1(&id);
    if found.is_some() {
        return found;
    }
    let found = lookup_2(&id);
    if found.is_some() {
        return found;
    }
    let found = lookup_3(&id);
    if found.is_some() {
        return found;
    }
    let found = lookup_4(&id);
    if found.is_some() {
        return found;
    }
    let found = lookup_5(&id);
    if found.is_some() {
        return found;
    }
    let found = lookup_6(&id);
    if found.is_some() {
        return found;
    }
    let found = lookup_7(&id);
    if found.is_some() {
        return found;
    }
    let found = lookup_8(&id);
    if found.is_some() {
        return found;
    }
    let found = lookup_9(&id);
    if found.is_some() {
        return found;
    }
    let found = lookup_10(&id);
    if found.is_some() {
        return found;
    }
    let found = lookup_11(&id);
    if found.is_some() {
        return found;
    }
    None
}

} // verus!


verus! {

/// Every recipe of `metas` is there.
pub open spec fn all_have_recipes(metas: Seq<RuleMeta>) -> bool {
    forall|i: int| 0 <= i < metas.len() ==> recipe(#[trigger] metas[i].id@) is Some
}

broadcast proof fn lemma_recipes_concat(a: Seq<RuleMeta>, b: Seq<RuleMeta>)
    requires
        all_have_recipes(a),
        all_have_recipes(b),
    ensures
        #[trigger] all_have_recipes(a + b),
{
    assert forall|i: int| 0 <= i < (a + b).len() implies recipe(#[trigger] (a + b)[i].id@) is Some by {
        if i < a.len() {
            assert((a + b)[i] == a[i]);
        } else {
            assert((a + b)[i] == b[i - a.len()]);
        }
    }
}

proof fn lemma_recipes_0()
    ensures
        recipe("require-yield-star"@) is Some,
        recipe("no-try-catch-in-gen"@) is Some,
        recipe("no-try-finally-in-gen"@) is Some,
        recipe("no-throw-in-effect"@) is Some,
        recipe("no-run-inside-effect"@) is Some,
        recipe("schema-class-self-mismatch"@) is Some,
        recipe("no-constructor-override-in-schema-class"@) is Some,
        recipe("no-orDie-to-silence-errors"@) is Some,
        recipe("no-async-callback-in-effect-combinators"@) is Some,
        recipe("no-then-in-sync"@) is Some,
{
    reveal_strlit("require-yield-star");
    reveal_strlit("no-try-catch-in-gen");
    reveal_strlit("no-try-finally-in-gen");
    reveal_strlit("no-throw-in-effect");
    reveal_strlit("no-run-inside-effect");
    reveal_strlit("schema-class-self-mismatch");
    reveal_strlit("no-constructor-override-in-schema-class");
    reveal_strlit("no-orDie-to-silence-errors");
    reveal_strlit("no-async-callback-in-effect-combinators");
    reveal_strlit("no-then-in-sync");
    assert(recipes_0("require-yield-star"@) is Some);
    assert(recipes_0("no-try-catch-in-gen"@) is Some);
    assert(recipes_0("no-try-finally-in-gen"@) is Some);
    assert(recipes_0("no-throw-in-effect"@) is Some);
    assert(recipes_0("no-run-inside-effect"@) is Some);
    assert(recipes_0("schema-class-self-mismatch"@) is Some);
    assert(recipes_0("no-constructor-override-in-schema-class"@) is Some);
    assert(recipes_0("no-orDie-to-silence-errors"@) is Some);
    assert(recipes_0("no-async-callback-in-effect-combinators"@) is Some);
    assert(recipes_0("no-then-in-sync"@) is Some);
}

proof fn lemma_recipes_1()
    ensures
        recipe("no-promise-all-in-effect"@) is Some,
        recipe("no-runsync-on-async-effect"@) is Some,
        recipe("no-map-returning-effect"@) is Some,
        recipe("no-runcollect-on-infinite-stream"@) is Some,
        recipe("no-object-literal-comparison"@) is Some,
        recipe("no-catchall-to-null"@) is Some,
        recipe("no-string-errors"@) is Some,
        recipe("prefer-config-redacted"@) is Some,
        recipe("prefer-catch-tag"@) is Some,
        recipe("catch-to-map-error"@) is Some,
{
    reveal_strlit("no-promise-all-in-effect");
    reveal_strlit("no-runsync-on-async-effect");
    reveal_strlit("no-map-returning-effect");
    reveal_strlit("no-runcollect-on-infinite-stream");
    reveal_strlit("no-object-literal-comparison");
    reveal_strlit("no-catchall-to-null");
    reveal_strlit("no-string-errors");
    reveal_strlit("prefer-config-redacted");
    reveal_strlit("prefer-catch-tag");
    reveal_strlit("catch-to-map-error");
    assert(recipes_1("no-promise-all-in-effect"@) is Some);
    assert(recipes_1("no-runsync-on-async-effect"@) is Some);
    assert(recipes_1("no-map-returning-effect"@) is Some);
    assert(recipes_1("no-runcollect-on-infinite-stream"@) is Some);
    assert(recipes_1("no-object-literal-comparison"@) is Some);
    assert(recipes_1("no-catchall-to-null"@) is Some);
    assert(recipes_1("no-string-errors"@) is Some);
    assert(recipes_1("prefer-config-redacted"@) is Some);
    assert(recipes_1("prefer-catch-tag"@) is Some);
    assert(recipes_1("catch-to-map-error"@) is Some);
}

proof fn lemma_recipes_2()
    ensures
        recipe("prefer-effect-void"@) is Some,
        recipe("prefer-as-void"@) is Some,
        recipe("prefer-flatmap-over-map-flatten"@) is Some,
        recipe("no-unnecessary-pipe"@) is Some,
        recipe("no-unnecessary-gen"@) is Some,
        recipe("no-unnecessary-fail-of-yieldable"@) is Some,
        recipe("no-nested-gen-yield"@) is Some,
        recipe("no-effect-fn-iife"@) is Some,
        recipe("no-unnecessary-pipe-chain"@) is Some,
        recipe("no-return-effect-in-gen"@) is Some,
{
    reveal_strlit("prefer-effect-void");
    reveal_strlit("prefer-as-void");
    reveal_strlit("prefer-flatmap-over-map-flatten");
    reveal_strlit("no-unnecessary-pipe");
    reveal_strlit("no-unnecessary-gen");
    reveal_strlit("no-unnecessary-fail-of-yieldable");
    reveal_strlit("no-nested-gen-yield");
    reveal_strlit("no-effect-fn-iife");
    reveal_strlit("no-unnecessary-pipe-chain");
    reveal_strlit("no-return-effect-in-gen");
    assert(recipes_2("prefer-effect-void"@) is Some);
    assert(recipes_2("prefer-as-void"@) is Some);
    assert(recipes_2("prefer-flatmap-over-map-flatten"@) is Some);
    assert(recipes_2("no-unnecessary-pipe"@) is Some);
    assert(recipes_2("no-unnecessary-gen"@) is Some);
    assert(recipes_2("no-unnecessary-fail-of-yieldable"@) is Some);
    assert(recipes_2("no-nested-gen-yield"@) is Some);
    assert(recipes_2("no-effect-fn-iife"@) is Some);
    assert(recipes_2("no-unnecessary-pipe-chain"@) is Some);
    assert(recipes_2("no-return-effect-in-gen"@) is Some);
}

proof fn lemma_recipes_3()
    ensures
        recipe("redundant-schema-tag-identifier"@) is Some,
        recipe("no-effect-do-notation"@) is Some,
        recipe("prefer-clock-service"@) is Some,
        recipe("prefer-random-service"@) is Some,
        recipe("prefer-effect-logging"@) is Some,
        recipe("prefer-effect-timers"@) is Some,
        recipe("prefer-platform-fetch"@) is Some,
        recipe("prefer-config-module"@) is Some,
        recipe("prefer-schema-over-json"@) is Some,
        recipe("prefer-decode-effect"@) is Some,
{
    reveal_strlit("redundant-schema-tag-identifier");
    reveal_strlit("no-effect-do-notation");
    reveal_strlit("prefer-clock-service");
    reveal_strlit("prefer-random-service");
    reveal_strlit("prefer-effect-logging");
    reveal_strlit("prefer-effect-timers");
    reveal_strlit("prefer-platform-fetch");
    reveal_strlit("prefer-config-module");
    reveal_strlit("prefer-schema-over-json");
    reveal_strlit("prefer-decode-effect");
    assert(recipes_3("redundant-schema-tag-identifier"@) is Some);
    assert(recipes_3("no-effect-do-notation"@) is Some);
    assert(recipes_3("prefer-clock-service"@) is Some);
    assert(recipes_3("prefer-random-service"@) is Some);
    assert(recipes_3("prefer-effect-logging"@) is Some);
    assert(recipes_3("prefer-effect-timers"@) is Some);
    assert(recipes_3("prefer-platform-fetch"@) is Some);
    assert(recipes_3("prefer-config-module"@) is Some);
    assert(recipes_3("prefer-schema-over-json"@) is Some);
    assert(recipes_3("prefer-decode-effect"@) is Some);
}

proof fn lemma_recipes_4()
    ensures
        recipe("prefer-effect-fn"@) is Some,
        recipe("prefer-tagged-error-classes"@) is Some,
        recipe("meaningful-span-names"@) is Some,
        recipe("prefer-it-effect"@) is Some,
        recipe("prefer-node-effect-counterparts"@) is Some,
        recipe("no-tag-string-comparison"@) is Some,
        recipe("prefer-match-over-tag-switch"@) is Some,
        recipe("prefer-duration-over-raw-millis"@) is Some,
        recipe("prefer-succeed-over-sync-literal"@) is Some,
        recipe("prefer-structured-logging-args"@) is Some,
{
    reveal_strlit("prefer-effect-fn");
    reveal_strlit("prefer-tagged-error-classes");
    reveal_strlit("meaningful-span-names");
    reveal_strlit("prefer-it-effect");
    reveal_strlit("prefer-node-effect-counterparts");
    reveal_strlit("no-tag-string-comparison");
    reveal_strlit("prefer-match-over-tag-switch");
    reveal_strlit("prefer-duration-over-raw-millis");
    reveal_strlit("prefer-succeed-over-sync-literal");
    reveal_strlit("prefer-structured-logging-args");
    assert(recipes_4("prefer-effect-fn"@) is Some);
    assert(recipes_4("prefer-tagged-error-classes"@) is Some);
    assert(recipes_4("meaningful-span-names"@) is Some);
    assert(recipes_4("prefer-it-effect"@) is Some);
    assert(recipes_4("prefer-node-effect-counterparts"@) is Some);
    assert(recipes_4("no-tag-string-comparison"@) is Some);
    assert(recipes_4("prefer-match-over-tag-switch"@) is Some);
    assert(recipes_4("prefer-duration-over-raw-millis"@) is Some);
    assert(recipes_4("prefer-succeed-over-sync-literal"@) is Some);
    assert(recipes_4("prefer-structured-logging-args"@) is Some);
}

proof fn lemma_recipes_5()
    ensures
        recipe("prefer-json-response-helper"@) is Some,
        recipe("require-typed-catch-in-try"@) is Some,
        recipe("prefer-timeout-over-race-sleep"@) is Some,
        recipe("no-fork-then-immediate-join"@) is Some,
        recipe("avoid-long-combinator-chains"@) is Some,
        recipe("no-chained-provides"@) is Some,
        recipe("no-manual-sql-transactions"@) is Some,
        recipe("retry-only-retryable"@) is Some,
        recipe("no-layer-mergeall-megalist"@) is Some,
        recipe("add-jitter-to-backoff"@) is Some,
{
    reveal_strlit("prefer-json-response-helper");
    reveal_strlit("require-typed-catch-in-try");
    reveal_strlit("prefer-timeout-over-race-sleep");
    reveal_strlit("no-fork-then-immediate-join");
    reveal_strlit("avoid-long-combinator-chains");
    reveal_strlit("no-chained-provides");
    reveal_strlit("no-manual-sql-transactions");
    reveal_strlit("retry-only-retryable");
    reveal_strlit("no-layer-mergeall-megalist");
    reveal_strlit("add-jitter-to-backoff");
    assert(recipes_5("prefer-json-response-helper"@) is Some);
    assert(recipes_5("require-typed-catch-in-try"@) is Some);
    assert(recipes_5("prefer-timeout-over-race-sleep"@) is Some);
    assert(recipes_5("no-fork-then-immediate-join"@) is Some);
    assert(recipes_5("avoid-long-combinator-chains"@) is Some);
    assert(recipes_5("no-chained-provides"@) is Some);
    assert(recipes_5("no-manual-sql-transactions"@) is Some);
    assert(recipes_5("retry-only-retryable"@) is Some);
    assert(recipes_5("no-layer-mergeall-megalist"@) is Some);
    assert(recipes_5("add-jitter-to-backoff"@) is Some);
}

proof fn lemma_recipes_6()
    ensures
        recipe("cap-exponential-backoff"@) is Some,
        recipe("no-unbounded-concurrency"@) is Some,
        recipe("hoist-schema-codecs"@) is Some,
        recipe("effect-all-missing-concurrency"@) is Some,
        recipe("stream-mapeffect-missing-concurrency"@) is Some,
        recipe("prefer-queue-bounded"@) is Some,
        recipe("no-eager-chunk-stream"@) is Some,
        recipe("v4-no-gen-adapter"@) is Some,
        recipe("v4-catch-renames"@) is Some,
        recipe("v4-fork-renames"@) is Some,
{
    reveal_strlit("cap-exponential-backoff");
    reveal_strlit("no-unbounded-concurrency");
    reveal_strlit("hoist-schema-codecs");
    reveal_strlit("effect-all-missing-concurrency");
    reveal_strlit("stream-mapeffect-missing-concurrency");
    reveal_strlit("prefer-queue-bounded");
    reveal_strlit("no-eager-chunk-stream");
    reveal_strlit("v4-no-gen-adapter");
    reveal_strlit("v4-catch-renames");
    reveal_strlit("v4-fork-renames");
    assert(recipes_6("cap-exponential-backoff"@) is Some);
    assert(recipes_6("no-unbounded-concurrency"@) is Some);
    assert(recipes_6("hoist-schema-codecs"@) is Some);
    assert(recipes_6("effect-all-missing-concurrency"@) is Some);
    assert(recipes_6("stream-mapeffect-missing-concurrency"@) is Some);
    assert(recipes_6("prefer-queue-bounded"@) is Some);
    assert(recipes_6("no-eager-chunk-stream"@) is Some);
    assert(recipes_6("v4-no-gen-adapter"@) is Some);
    assert(recipes_6("v4-catch-renames"@) is Some);
    assert(recipes_6("v4-fork-renames"@) is Some);
}

proof fn lemma_recipes_7()
    ensures
        recipe("v4-context-service"@) is Some,
        recipe("v4-cause-flattened"@) is Some,
        recipe("v4-runtime-removed"@) is Some,
        recipe("v4-scope-provide"@) is Some,
        recipe("v4-layer-scoped-to-effect"@) is Some,
        recipe("v4-gen-self-options"@) is Some,
        recipe("v4-option-renames"@) is Some,
        recipe("v4-schema-renames"@) is Some,
        recipe("v4-fiberref-removed"@) is Some,
        recipe("v4-package-consolidation"@) is Some,
{
    reveal_strlit("v4-context-service");
    reveal_strlit("v4-cause-flattened");
    reveal_strlit("v4-runtime-removed");
    reveal_strlit("v4-scope-provide");
    reveal_strlit("v4-layer-scoped-to-effect");
    reveal_strlit("v4-gen-self-options");
    reveal_strlit("v4-option-renames");
    reveal_strlit("v4-schema-renames");
    reveal_strlit("v4-fiberref-removed");
    reveal_strlit("v4-package-consolidation");
    assert(recipes_7("v4-context-service"@) is Some);
    assert(recipes_7("v4-cause-flattened"@) is Some);
    assert(recipes_7("v4-runtime-removed"@) is Some);
    assert(recipes_7("v4-scope-provide"@) is Some);
    assert(recipes_7("v4-layer-scoped-to-effect"@) is Some);
    assert(recipes_7("v4-gen-self-options"@) is Some);
    assert(recipes_7("v4-option-renames"@) is Some);
    assert(recipes_7("v4-schema-renames"@) is Some);
    assert(recipes_7("v4-fiberref-removed"@) is Some);
    assert(recipes_7("v4-package-consolidation"@) is Some);
}

proof fn lemma_recipes_8()
    ensures
        recipe("v4-unstable-import-awareness"@) is Some,
        recipe("prefer-abort-signal-passthrough"@) is Some,
        recipe("prefer-gen-over-nested-flatmap"@) is Some,
        recipe("adopt-async-function"@) is Some,
        recipe("adopt-promise-chain"@) is Some,
        recipe("adopt-new-promise"@) is Some,
        recipe("adopt-promise-all"@) is Some,
        recipe("adopt-await-in-loop"@) is Some,
        recipe("prefer-foreach-over-yield-loop"@) is Some,
        recipe("agent-no-if-else-chain"@) is Some,
{
    reveal_strlit("v4-unstable-import-awareness");
    reveal_strlit("prefer-abort-signal-passthrough");
    reveal_strlit("prefer-gen-over-nested-flatmap");
    reveal_strlit("adopt-async-function");
    reveal_strlit("adopt-promise-chain");
    reveal_strlit("adopt-new-promise");
    reveal_strlit("adopt-promise-all");
    reveal_strlit("adopt-await-in-loop");
    reveal_strlit("prefer-foreach-over-yield-loop");
    reveal_strlit("agent-no-if-else-chain");
    assert(recipes_8("v4-unstable-import-awareness"@) is Some);
    assert(recipes_8("prefer-abort-signal-passthrough"@) is Some);
    assert(recipes_8("prefer-gen-over-nested-flatmap"@) is Some);
    assert(recipes_8("adopt-async-function"@) is Some);
    assert(recipes_8("adopt-promise-chain"@) is Some);
    assert(recipes_8("adopt-new-promise"@) is Some);
    assert(recipes_8("adopt-promise-all"@) is Some);
    assert(recipes_8("adopt-await-in-loop"@) is Some);
    assert(recipes_8("prefer-foreach-over-yield-loop"@) is Some);
    assert(recipes_8("agent-no-if-else-chain"@) is Some);
}

proof fn lemma_recipes_9()
    ensures
        recipe("agent-no-ternary"@) is Some,
        recipe("agent-no-string-equality-guard"@) is Some,
        recipe("agent-no-raw-loop"@) is Some,
        recipe("agent-no-let"@) is Some,
        recipe("agent-duplicate-function"@) is Some,
        recipe("agent-no-mutation"@) is Some,
        recipe("agent-duplicate-cross-file"@) is Some,
        recipe("agent-near-duplicate-function"@) is Some,
        recipe("agent-similar-function-name"@) is Some,
        recipe("agent-similar-shape"@) is Some,
{
    reveal_strlit("agent-no-ternary");
    reveal_strlit("agent-no-string-equality-guard");
    reveal_strlit("agent-no-raw-loop");
    reveal_strlit("agent-no-let");
    reveal_strlit("agent-duplicate-function");
    reveal_strlit("agent-no-mutation");
    reveal_strlit("agent-duplicate-cross-file");
    reveal_strlit("agent-near-duplicate-function");
    reveal_strlit("agent-similar-function-name");
    reveal_strlit("agent-similar-shape");
    assert(recipes_9("agent-no-ternary"@) is Some);
    assert(recipes_9("agent-no-string-equality-guard"@) is Some);
    assert(recipes_9("agent-no-raw-loop"@) is Some);
    assert(recipes_9("agent-no-let"@) is Some);
    assert(recipes_9("agent-duplicate-function"@) is Some);
    assert(recipes_9("agent-no-mutation"@) is Some);
    assert(recipes_9("agent-duplicate-cross-file"@) is Some);
    assert(recipes_9("agent-near-duplicate-function"@) is Some);
    assert(recipes_9("agent-similar-function-name"@) is Some);
    assert(recipes_9("agent-similar-shape"@) is Some);
}

proof fn lemma_recipes_10()
    ensures
        recipe("agent-no-inline-import"@) is Some,
        recipe("agent-no-any"@) is Some,
        recipe("agent-no-import-alias"@) is Some,
        recipe("agent-no-namespace-import"@) is Some,
        recipe("agent-no-try-catch"@) is Some,
        recipe("agent-no-default-export"@) is Some,
        recipe("agent-no-as-cast"@) is Some,
        recipe("agent-no-unbounded-promise-all"@) is Some,
        recipe("agent-no-loose-equality"@) is Some,
        recipe("agent-no-non-null-assertion"@) is Some,
        recipe("agent-no-enum"@) is Some,
        recipe("agent-prefer-safe-parse"@) is Some,
        recipe("agent-no-inline-type-import"@) is Some,
        recipe("agent-no-ts-namespace"@) is Some,
{
    reveal_strlit("agent-no-inline-import");
    reveal_strlit("agent-no-any");
    reveal_strlit("agent-no-import-alias");
    reveal_strlit("agent-no-namespace-import");
    reveal_strlit("agent-no-try-catch");
    reveal_strlit("agent-no-default-export");
    reveal_strlit("agent-no-as-cast");
    reveal_strlit("agent-no-unbounded-promise-all");
    reveal_strlit("agent-no-loose-equality");
    reveal_strlit("agent-no-non-null-assertion");
    reveal_strlit("agent-no-enum");
    reveal_strlit("agent-prefer-safe-parse");
    reveal_strlit("agent-no-inline-type-import");
    reveal_strlit("agent-no-ts-namespace");
    assert(recipes_10("agent-no-inline-import"@) is Some);
    assert(recipes_10("agent-no-any"@) is Some);
    assert(recipes_10("agent-no-import-alias"@) is Some);
    assert(recipes_10("agent-no-namespace-import"@) is Some);
    assert(recipes_10("agent-no-try-catch"@) is Some);
    assert(recipes_10("agent-no-default-export"@) is Some);
    assert(recipes_10("agent-no-as-cast"@) is Some);
    assert(recipes_10("agent-no-unbounded-promise-all"@) is Some);
    assert(recipes_10("agent-no-loose-equality"@) is Some);
    assert(recipes_10("agent-no-non-null-assertion"@) is Some);
    assert(recipes_10("agent-no-enum"@) is Some);
    assert(recipes_10("agent-prefer-safe-parse"@) is Some);
    assert(recipes_10("agent-no-inline-type-import"@) is Some);
    assert(recipes_10("agent-no-ts-namespace"@) is Some);
}

proof fn lemma_recipes_11()
    ensures
        recipe("agent-no-throw"@) is Some,
        recipe("agent-no-delete"@) is Some,
        recipe("agent-deep-nesting"@) is Some,
        recipe("agent-high-complexity"@) is Some,
        recipe("agent-too-many-params"@) is Some,
        recipe("agent-deep-relative-import"@) is Some,
        recipe("oop-singleton-to-layer"@) is Some,
        recipe("oop-observer-to-pubsub"@) is Some,
        recipe("oop-strategy-to-function"@) is Some,
        recipe("oop-visitor-to-match"@) is Some,
        recipe("oop-chain-to-catchtag"@) is Some,
        recipe("max-function-parameters"@) is Some,
        recipe("max-nesting-depth"@) is Some,
        recipe("high-cognitive-complexity"@) is Some,
        recipe("agent-circular-import"@) is Some,
{
    reveal_strlit("agent-no-throw");
    reveal_strlit("agent-no-delete");
    reveal_strlit("agent-deep-nesting");
    reveal_strlit("agent-high-complexity");
    reveal_strlit("agent-too-many-params");
    reveal_strlit("agent-deep-relative-import");
    reveal_strlit("oop-singleton-to-layer");
    reveal_strlit("oop-observer-to-pubsub");
    reveal_strlit("oop-strategy-to-function");
    reveal_strlit("oop-visitor-to-match");
    reveal_strlit("oop-chain-to-catchtag");
    reveal_strlit("max-function-parameters");
    reveal_strlit("max-nesting-depth");
    reveal_strlit("high-cognitive-complexity");
    reveal_strlit("agent-circular-import");
    assert(recipes_11("agent-no-throw"@) is Some);
    assert(recipes_11("agent-no-delete"@) is Some);
    assert(recipes_11("agent-deep-nesting"@) is Some);
    assert(recipes_11("agent-high-complexity"@) is Some);
    assert(recipes_11("agent-too-many-params"@) is Some);
    assert(recipes_11("agent-deep-relative-import"@) is Some);
    assert(recipes_11("oop-singleton-to-layer"@) is Some);
    assert(recipes_11("oop-observer-to-pubsub"@) is Some);
    assert(recipes_11("oop-strategy-to-function"@) is Some);
    assert(recipes_11("oop-visitor-to-match"@) is Some);
    assert(recipes_11("oop-chain-to-catchtag"@) is Some);
    assert(recipes_11("max-function-parameters"@) is Some);
    assert(recipes_11("max-nesting-depth"@) is Some);
    assert(recipes_11("high-cognitive-complexity"@) is Some);
    assert(recipes_11("agent-circular-import"@) is Some);
}

proof fn lemma_catalog_part_0()
    ensures
        all_have_recipes(seq![crate::rules::require_yield_star::require_yield_star_meta()]),
{
    lemma_recipes_0();
}

proof fn lemma_catalog_part_1()
    ensures
        all_have_recipes(seq![crate::rules::no_try_catch_in_gen::no_try_catch_in_gen_meta(), crate::rules::no_try_catch_in_gen::no_try_finally_in_gen_meta()]),
{
    lemma_recipes_0();
}

proof fn lemma_catalog_part_2()
    ensures
        all_have_recipes(seq![crate::rules::no_throw_in_effect::no_throw_in_effect_meta()]),
{
    lemma_recipes_0();
}

proof fn lemma_catalog_part_3()
    ensures
        all_have_recipes(seq![crate::rules::no_run_inside_effect::no_run_inside_effect_meta()]),
{
    lemma_recipes_0();
}

proof fn lemma_catalog_part_4()
    ensures
        all_have_recipes(seq![crate::rules::schema_class_hygiene::self_mismatch_meta(), crate::rules::schema_class_hygiene::constructor_override_meta()]),
{
    lemma_recipes_0();
}

proof fn lemma_catalog_part_5()
    ensures
        all_have_recipes(seq![crate::rules::promise_interop::no_async_callback_meta(), crate::rules::promise_interop::no_then_in_sync_meta(), crate::rules::promise_interop::no_promise_all_meta(), crate::rules::promise_interop::require_typed_catch_meta()]),
{
    lemma_recipes_0();
    lemma_recipes_1();
    lemma_recipes_5();
}

proof fn lemma_catalog_part_6()
    ensures
        all_have_recipes(seq![crate::rules::run_sync_async::no_run_sync_on_async_meta()]),
{
    lemma_recipes_1();
}

proof fn lemma_catalog_part_7()
    ensures
        all_have_recipes(seq![crate::rules::map_misuse::no_map_returning_effect_meta()]),
{
    lemma_recipes_1();
}

proof fn lemma_catalog_part_8()
    ensures
        all_have_recipes(seq![crate::rules::equality_idioms::object_literal_comparison_meta(), crate::rules::equality_idioms::tag_string_comparison_meta(), crate::rules::equality_idioms::tag_switch_meta()]),
{
    lemma_recipes_1();
    lemma_recipes_4();
}

proof fn lemma_catalog_part_9()
    ensures
        all_have_recipes(seq![crate::rules::error_modeling::no_string_errors_meta(), crate::rules::error_modeling::no_catchall_to_null_meta()]),
{
    lemma_recipes_1();
}

proof fn lemma_catalog_part_10()
    ensures
        all_have_recipes(seq![crate::rules::concurrency_idioms::missing_concurrency_meta(), crate::rules::concurrency_idioms::race_sleep_meta(), crate::rules::concurrency_idioms::fork_join_meta()]),
{
    lemma_recipes_5();
    lemma_recipes_6();
}

proof fn lemma_catalog_part_11()
    ensures
        all_have_recipes(seq![crate::rules::literal_idioms::raw_millis_meta(), crate::rules::literal_idioms::sync_literal_meta()]),
{
    lemma_recipes_4();
}

proof fn lemma_catalog_part_12()
    ensures
        all_have_recipes(seq![crate::rules::logging_security::config_redacted_meta(), crate::rules::logging_security::structured_logging_meta(), crate::rules::logging_security::json_response_meta()]),
{
    lemma_recipes_1();
    lemma_recipes_4();
    lemma_recipes_5();
}

proof fn lemma_catalog_part_13()
    ensures
        all_have_recipes(seq![crate::rules::interruption::abort_signal_meta(), crate::rules::interruption::nested_flatmap_meta()]),
{
    lemma_recipes_8();
}

proof fn lemma_catalog_part_14()
    ensures
        all_have_recipes(seq![crate::rules::composition_limits::long_chains_meta(), crate::rules::composition_limits::mergeall_megalist_meta()]),
{
    lemma_recipes_5();
}

proof fn lemma_catalog_part_15()
    ensures
        all_have_recipes(seq![crate::rules::gen_shape::nested_gen_yield_meta(), crate::rules::gen_shape::effect_fn_iife_meta(), crate::rules::gen_shape::pipe_chain_meta(), crate::rules::gen_shape::return_effect_in_gen_meta(), crate::rules::gen_shape::redundant_tag_identifier_meta()]),
{
    lemma_recipes_2();
    lemma_recipes_3();
}

proof fn lemma_catalog_part_16()
    ensures
        all_have_recipes(seq![crate::rules::no_unnecessary_gen::no_unnecessary_gen_meta()]),
{
    lemma_recipes_2();
}

proof fn lemma_catalog_part_17()
    ensures
        all_have_recipes(seq![crate::rules::no_unnecessary_fail::no_unnecessary_fail_meta()]),
{
    lemma_recipes_2();
}

proof fn lemma_catalog_part_18()
    ensures
        all_have_recipes(seq![crate::rules::no_effect_do::no_effect_do_meta()]),
{
    lemma_recipes_3();
}

proof fn lemma_catalog_part_19()
    ensures
        all_have_recipes(seq![crate::rules::no_or_die::no_or_die_meta()]),
{
    lemma_recipes_0();
}

proof fn lemma_catalog_part_20()
    ensures
        all_have_recipes(seq![crate::rules::idiom_shortcuts::prefer_effect_void_meta(), crate::rules::idiom_shortcuts::prefer_as_void_meta(), crate::rules::idiom_shortcuts::prefer_flatmap_meta(), crate::rules::idiom_shortcuts::no_unnecessary_pipe_meta()]),
{
    lemma_recipes_2();
}

proof fn lemma_catalog_part_21()
    ensures
        all_have_recipes(seq![crate::rules::catch_idioms::prefer_catch_tag_meta(), crate::rules::catch_idioms::catch_to_map_error_meta()]),
{
    lemma_recipes_1();
}

proof fn lemma_catalog_part_22()
    ensures
        all_have_recipes(seq![crate::rules::prefer_clock_service::prefer_clock_service_meta()]),
{
    lemma_recipes_3();
}

proof fn lemma_catalog_part_23()
    ensures
        all_have_recipes(seq![crate::rules::prefer_random_service::prefer_random_service_meta()]),
{
    lemma_recipes_3();
}

proof fn lemma_catalog_part_24()
    ensures
        all_have_recipes(seq![crate::rules::prefer_effect_logging::prefer_effect_logging_meta()]),
{
    lemma_recipes_3();
}

proof fn lemma_catalog_part_25()
    ensures
        all_have_recipes(seq![crate::rules::globals_in_effect::prefer_effect_timers_meta(), crate::rules::globals_in_effect::prefer_platform_fetch_meta(), crate::rules::globals_in_effect::prefer_config_module_meta(), crate::rules::globals_in_effect::prefer_schema_over_json_meta()]),
{
    lemma_recipes_3();
}

proof fn lemma_catalog_part_26()
    ensures
        all_have_recipes(seq![crate::rules::prefer_effect_fn::prefer_effect_fn_meta()]),
{
    lemma_recipes_4();
}

proof fn lemma_catalog_part_27()
    ensures
        all_have_recipes(seq![crate::rules::prefer_tagged_error_classes::prefer_tagged_error_classes_meta()]),
{
    lemma_recipes_4();
}

proof fn lemma_catalog_part_28()
    ensures
        all_have_recipes(seq![crate::rules::schema_usage::prefer_decode_effect_meta(), crate::rules::schema_usage::hoist_schema_codecs_meta()]),
{
    lemma_recipes_3();
    lemma_recipes_6();
}

proof fn lemma_catalog_part_29()
    ensures
        all_have_recipes(seq![crate::rules::meaningful_span_names::meaningful_span_names_meta()]),
{
    lemma_recipes_4();
}

proof fn lemma_catalog_part_30()
    ensures
        all_have_recipes(seq![crate::rules::prefer_node_counterparts::prefer_node_counterparts_meta()]),
{
    lemma_recipes_4();
}

proof fn lemma_catalog_part_31()
    ensures
        all_have_recipes(seq![crate::rules::prefer_it_effect::prefer_it_effect_meta()]),
{
    lemma_recipes_4();
}

proof fn lemma_catalog_part_32()
    ensures
        all_have_recipes(seq![crate::rules::no_chained_provides::no_chained_provides_meta()]),
{
    lemma_recipes_5();
}

proof fn lemma_catalog_part_33()
    ensures
        all_have_recipes(seq![crate::rules::no_manual_sql_transactions::no_manual_sql_transactions_meta()]),
{
    lemma_recipes_5();
}

proof fn lemma_catalog_part_34()
    ensures
        all_have_recipes(seq![crate::rules::retry_only_retryable::retry_only_retryable_meta()]),
{
    lemma_recipes_5();
}

proof fn lemma_catalog_part_35()
    ensures
        all_have_recipes(seq![crate::rules::schedule_hygiene::add_jitter_meta(), crate::rules::schedule_hygiene::cap_backoff_meta()]),
{
    lemma_recipes_5();
    lemma_recipes_6();
}

proof fn lemma_catalog_part_36()
    ensures
        all_have_recipes(seq![crate::rules::no_unbounded_concurrency::no_unbounded_concurrency_meta()]),
{
    lemma_recipes_6();
}

proof fn lemma_catalog_part_37()
    ensures
        all_have_recipes(seq![crate::rules::adopt::async_function_meta(), crate::rules::adopt::promise_chain_meta(), crate::rules::adopt::new_promise_meta(), crate::rules::adopt::promise_all_meta(), crate::rules::adopt::await_in_loop_meta(), crate::rules::adopt::yield_loop_meta()]),
{
    lemma_recipes_8();
}

#[verifier::rlimit(100)]
proof fn lemma_catalog_part_38()
    ensures
        all_have_recipes(seq![crate::rules::agent_hygiene::if_else_chain_meta(), crate::rules::agent_hygiene::ternary_meta(), crate::rules::agent_hygiene::string_equality_guard_meta(), crate::rules::agent_hygiene::raw_loop_meta(), crate::rules::agent_hygiene::let_binding_meta(), crate::rules::agent_hygiene::mutation_meta(), crate::rules::agent_hygiene::inline_import_meta(), crate::rules::agent_hygiene::any_type_meta(), crate::rules::agent_hygiene::import_alias_meta(), crate::rules::agent_hygiene::namespace_import_meta(), crate::rules::agent_hygiene::try_catch_meta(), crate::rules::agent_hygiene::as_cast_meta(), crate::rules::agent_hygiene::unbounded_promise_all_meta(), crate::rules::agent_hygiene::loose_equality_meta(), crate::rules::agent_hygiene::non_null_assertion_meta(), crate::rules::agent_hygiene::ts_enum_meta(), crate::rules::agent_hygiene::safe_parse_meta(), crate::rules::agent_hygiene::inline_type_import_meta(), crate::rules::agent_hygiene::ts_namespace_meta(), crate::rules::agent_hygiene::throw_meta(), crate::rules::agent_hygiene::delete_op_meta(), crate::rules::agent_hygiene::deep_nesting_meta(), crate::rules::agent_hygiene::high_complexity_meta(), crate::rules::agent_hygiene::too_many_params_meta(), crate::rules::agent_hygiene::deep_relative_import_meta(), crate::rules::agent_hygiene::duplicate_function_meta()]),
{
    broadcast use lemma_recipes_concat;

    lemma_recipes_8();
    lemma_recipes_9();
    lemma_recipes_10();
    lemma_recipes_11();
    let whole = seq![crate::rules::agent_hygiene::if_else_chain_meta(), crate::rules::agent_hygiene::ternary_meta(), crate::rules::agent_hygiene::string_equality_guard_meta(), crate::rules::agent_hygiene::raw_loop_meta(), crate::rules::agent_hygiene::let_binding_meta(), crate::rules::agent_hygiene::mutation_meta(), crate::rules::agent_hygiene::inline_import_meta(), crate::rules::agent_hygiene::any_type_meta(), crate::rules::agent_hygiene::import_alias_meta(), crate::rules::agent_hygiene::namespace_import_meta(), crate::rules::agent_hygiene::try_catch_meta(), crate::rules::agent_hygiene::as_cast_meta(), crate::rules::agent_hygiene::unbounded_promise_all_meta(), crate::rules::agent_hygiene::loose_equality_meta(), crate::rules::agent_hygiene::non_null_assertion_meta(), crate::rules::agent_hygiene::ts_enum_meta(), crate::rules::agent_hygiene::safe_parse_meta(), crate::rules::agent_hygiene::inline_type_import_meta(), crate::rules::agent_hygiene::ts_namespace_meta(), crate::rules::agent_hygiene::throw_meta(), crate::rules::agent_hygiene::delete_op_meta(), crate::rules::agent_hygiene::deep_nesting_meta(), crate::rules::agent_hygiene::high_complexity_meta(), crate::rules::agent_hygiene::too_many_params_meta(), crate::rules::agent_hygiene::deep_relative_import_meta(), crate::rules::agent_hygiene::duplicate_function_meta()];
    assert(all_have_recipes(seq![crate::rules::agent_hygiene::if_else_chain_meta(), crate::rules::agent_hygiene::ternary_meta(), crate::rules::agent_hygiene::string_equality_guard_meta(), crate::rules::agent_hygiene::raw_loop_meta(), crate::rules::agent_hygiene::let_binding_meta(), crate::rules::agent_hygiene::mutation_meta(), crate::rules::agent_hygiene::inline_import_meta(), crate::rules::agent_hygiene::any_type_meta(), crate::rules::agent_hygiene::import_alias_meta()]));
    assert(all_have_recipes(seq![crate::rules::agent_hygiene::namespace_import_meta(), crate::rules::agent_hygiene::try_catch_meta(), crate::rules::agent_hygiene::as_cast_meta(), crate::rules::agent_hygiene::unbounded_promise_all_meta(), crate::rules::agent_hygiene::loose_equality_meta(), crate::rules::agent_hygiene::non_null_assertion_meta(), crate::rules::agent_hygiene::ts_enum_meta(), crate::rules::agent_hygiene::safe_parse_meta()]));
    assert(all_have_recipes(seq![crate::rules::agent_hygiene::inline_type_import_meta(), crate::rules::agent_hygiene::ts_namespace_meta(), crate::rules::agent_hygiene::throw_meta(), crate::rules::agent_hygiene::delete_op_meta(), crate::rules::agent_hygiene::deep_nesting_meta(), crate::rules::agent_hygiene::high_complexity_meta(), crate::rules::agent_hygiene::too_many_params_meta(), crate::rules::agent_hygiene::deep_relative_import_meta(), crate::rules::agent_hygiene::duplicate_function_meta()]));
    assert(whole =~= seq![crate::rules::agent_hygiene::if_else_chain_meta(), crate::rules::agent_hygiene::ternary_meta(), crate::rules::agent_hygiene::string_equality_guard_meta(), crate::rules::agent_hygiene::raw_loop_meta(), crate::rules::agent_hygiene::let_binding_meta(), crate::rules::agent_hygiene::mutation_meta(), crate::rules::agent_hygiene::inline_import_meta(), crate::rules::agent_hygiene::any_type_meta(), crate::rules::agent_hygiene::import_alias_meta()] + seq![crate::rules::agent_hygiene::namespace_import_meta(), crate::rules::agent_hygiene::try_catch_meta(), crate::rules::agent_hygiene::as_cast_meta(), crate::rules::agent_hygiene::unbounded_promise_all_meta(), crate::rules::agent_hygiene::loose_equality_meta(), crate::rules::agent_hygiene::non_null_assertion_meta(), crate::rules::agent_hygiene::ts_enum_meta(), crate::rules::agent_hygiene::safe_parse_meta()] + seq![crate::rules::agent_hygiene::inline_type_import_meta(), crate::rules::agent_hygiene::ts_namespace_meta(), crate::rules::agent_hygiene::throw_meta(), crate::rules::agent_hygiene::delete_op_meta(), crate::rules::agent_hygiene::deep_nesting_meta(), crate::rules::agent_hygiene::high_complexity_meta(), crate::rules::agent_hygiene::too_many_params_meta(), crate::rules::agent_hygiene::deep_relative_import_meta(), crate::rules::agent_hygiene::duplicate_function_meta()]);
}

proof fn lemma_catalog_part_39()
    ensures
        all_have_recipes(seq![crate::rules::oop_to_effect::singleton_meta()]),
{
    lemma_recipes_11();
}

proof fn lemma_catalog_part_40()
    ensures
        all_have_recipes(seq![crate::rules::oop_to_effect::observer_meta()]),
{
    lemma_recipes_11();
}

proof fn lemma_catalog_part_41()
    ensures
        all_have_recipes(seq![crate::rules::oop_to_effect::strategy_meta()]),
{
    lemma_recipes_11();
}

proof fn lemma_catalog_part_42()
    ensures
        all_have_recipes(seq![crate::rules::oop_to_effect::visitor_meta()]),
{
    lemma_recipes_11();
}

proof fn lemma_catalog_part_43()
    ensures
        all_have_recipes(seq![crate::rules::oop_to_effect::chain_meta()]),
{
    lemma_recipes_11();
}

proof fn lemma_catalog_part_44()
    ensures
        all_have_recipes(seq![crate::rules::function_metrics::max_params_meta(), crate::rules::function_metrics::max_nesting_meta(), crate::rules::function_metrics::high_cognitive_meta()]),
{
    lemma_recipes_11();
}

proof fn lemma_catalog_part_45()
    ensures
        all_have_recipes(seq![crate::rules::module_conventions::no_default_export_meta()]),
{
    lemma_recipes_10();
}

/// Every rule of the catalog has a rewrite recipe.
#[verifier::rlimit(100)]
pub proof fn lemma_every_rule_has_recipe()
    ensures
        all_have_recipes(catalog()),
{
    broadcast use lemma_recipes_concat;

    assert(all_have_recipes(Seq::<RuleMeta>::empty()));
    lemma_catalog_part_0();
    lemma_catalog_part_1();
    lemma_catalog_part_2();
    lemma_catalog_part_3();
    lemma_catalog_part_4();
    lemma_catalog_part_5();
    lemma_catalog_part_6();
    lemma_catalog_part_7();
    lemma_catalog_part_8();
    lemma_catalog_part_9();
    lemma_catalog_part_10();
    lemma_catalog_part_11();
    lemma_catalog_part_12();
    lemma_catalog_part_13();
    lemma_catalog_part_14();
    lemma_catalog_part_15();
    lemma_catalog_part_16();
    lemma_catalog_part_17();
    lemma_catalog_part_18();
    lemma_catalog_part_19();
    lemma_catalog_part_20();
    lemma_catalog_part_21();
    lemma_catalog_part_22();
    lemma_catalog_part_23();
    lemma_catalog_part_24();
    lemma_catalog_part_25();
    lemma_catalog_part_26();
    lemma_catalog_part_27();
    lemma_catalog_part_28();
    lemma_catalog_part_29();
    lemma_catalog_part_30();
    lemma_catalog_part_31();
    lemma_catalog_part_32();
    lemma_catalog_part_33();
    lemma_catalog_part_34();
    lemma_catalog_part_35();
    lemma_catalog_part_36();
    lemma_catalog_part_37();
    lemma_catalog_part_38();
    lemma_catalog_part_39();
    lemma_catalog_part_40();
    lemma_catalog_part_41();
    lemma_catalog_part_42();
    lemma_catalog_part_43();
    lemma_catalog_part_44();
    lemma_catalog_part_45();
    assert(all_have_recipes(rule_catalog()));
    lemma_recipes_10();
    lemma_recipes_11();
    lemma_recipes_9();
    assert(all_have_recipes(cross_file_catalog()));
}

} // verus!
