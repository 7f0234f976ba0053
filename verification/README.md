# Eclipse Heart rules library

The deterministic core of Eclipse Heart, a card battler about magical-girl teams, rival
baddies and hidden supports, written in Verus: every function states what it does in its
contract and Verus proves it.

- `src/data`: content definitions (characters, story cards, rules, campaigns, text catalog).
- `src/state`: match state and its round flow, match setup and opening, save data
  (decks, collection, campaign runs, profile) and the deck browser's ordering.
- `src/engine`: the match engine, its model as spec functions, the computer opponent, and
  the laws that every action keeps (no card is created or lost, one support reveal per
  round, a finished match stays finished).
- `src/screens`: what the menu, battle and deck builder screens display and ask for.
- `src/game`: boosters, and how the game carries out the screens' requests: battle actions
  and their outcome (profile counts, run records, notices, next screen), deck-builder,
  campaign-menu, setup and navigation requests, and starting a configured battle.
- `src/ui`: the labels and effect sentences written on card tiles.
- `src/text.rs`: decimal text, number reading, trimming helpers.
- `app/`: a command-line tool that loads the content files, opens the default match and
  reports where it stands (active player, hands, log), honouring `--round-cap`; JSON
  loading of content and saves; the clock.

Round flow: each player is dealt four cards and then makes the round-start draw of two, so
a match opens with six-card hands. At the end of a round every hand is cut to seven cards,
oldest first, and the next round's draw of two follows, so a hand can reach nine.
