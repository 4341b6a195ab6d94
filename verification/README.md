# zdict

`zd` looks words up in online dictionaries (Yahoo's English-Chinese
dictionary, Urban Dictionary) and prints their entries in the terminal,
keeping each entry it fetched in a small SQLite cache under `~/.zd/`.

    zd [FLAGS] [OPTIONS] <word>...
    zd dicts

    -d, --disable-db-cache   do not read earlier results from the cache
                             (found entries are still saved)
        --show-provider      show the dictionary's name
        --show-url           show the query address
    -v, --verbose            verbose output (at most twice)
        --dict <DICT>        yahoo (default), urban or all

## Layout

- `src/` is the library, verified with Verus: the command-line grammar
  (`cli`), the dictionaries and their entries (`dict`), reading an entry from
  Yahoo's search page (`dict/yahoo`), how entries are shown, and the lookup as
  a state machine (`lookup`), with the
  laws it keeps (a disabled cache is never read but still written, a cache
  hit is shown without a query, every event moves a lookup forward).
  Reading a Yahoo page is proved against the parts of the page that
  `kuchiki` finds: `dict/html` names what `kuchiki`'s parser and selectors
  return for a node (addressed by its path in the document), and the contracts
  of the walk over the page and of the reading that follows are stated over
  those names; what `kuchiki` itself computes is trusted, not proved.
- `app/` is the program around it: the process's arguments and clap's help
  and error messages, the network (`reqwest`), the cache (`rusqlite`), the
  JSON form of entries (`serde`), and the loop that carries out what a lookup
  asks for.
- `tests/` exercises the library on concrete values.
