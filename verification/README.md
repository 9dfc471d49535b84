# pumpkin

The rules of a block game server: how living entities are hurt, die, move and use
items; how mobs choose goals, find paths and get angry; how villagers claim homes
and trade; how players log in, are saved and act on the world; and which commands
there are and who may use them.

The library under `src/` is written in Verus. It decides, and every decision has a
contract that is proved. It does not read or write anything: a rule takes what it
has to know of the world as plain values and hands back what has to be done, in
order. Chance is drawn through the `rand` crate in `src/random.rs`; each rule that
draws has a sibling that takes the number drawn as an argument.

Floating-point numbers are known to the library by their rank (`src/data/rank.rs`):
it compares them and picks among them, and the sums and products are worked out by
the program around it.

- `src/data`: what the rules speak of, from blocks to saved data
- `src/entity`: living entities, mobs and their goals, villagers, players, arrows
- `src/command`: the commands and their permissions
- `src/net`: what clients send and are sent
- `src/server`: who is on the server
- `src/plan.rs`, `src/text.rs`, `src/random.rs`: lists of things to do, texts, chance
- `app`: the program around the library, with its arithmetic and its input and output
- `tests`: examples that run
